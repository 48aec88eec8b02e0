//! Adding a todo item for the signed-in user.
use vstd::prelude::*;
use vstd::string::StringExecFns;

use crate::fields::FieldMap;
use crate::models::todo_item::TodoItemRequest;
use crate::models::user::User;

verus! {

/// The answer once the item was, or was not, stored.
pub enum TodoReply {
    /// The item could not be stored: `status` with a plain message.
    Failed { status: u16, message: String },
    /// The item was stored: the template string to render with the
    /// context.
    Added { template: String, context: FieldMap },
}

/// The template of the confirmation; it shows the item's title.
pub open spec fn todo_added_template() -> Seq<char> {
    "Todo item '{{ title_clone }}' succesfuly added!"@
}

/// The row that adding an item stores; the database assigns its id.
pub struct NewTodo {
    pub title: String,
    pub date: i64,
    pub user_id: i64,
}

/// The row stored for a submitted item: its title and date, owned by the
/// signed-in user.
pub open spec fn todo_row(form: TodoItemRequest, user: User) -> NewTodo {
    NewTodo { title: form.title, date: form.date, user_id: user.id as i64 }
}

/// The row to store for a submitted item, for the signed-in user.
pub fn create_todo(form: TodoItemRequest, user: &User) -> (row: NewTodo)
    ensures
        row == todo_row(form, *user),
        row.title == form.title,
        row.date == form.date,
        row.user_id == user.id as i64,
{
    NewTodo { title: form.title, date: form.date, user_id: user.id as i64 }
}

/// Law: what is stored for a submitted item does not depend on the id or
/// the user that the form names: two forms that differ only there store the
/// same row, owned by the signed-in user. (The answer, `create_todo_reply`,
/// depends only on whether storing succeeded and on the title.)
pub proof fn law_todo_row_ignores_form_ids(form1: TodoItemRequest, form2: TodoItemRequest, user: User)
    requires
        form1.title == form2.title,
        form1.date == form2.date,
    ensures
        todo_row(form1, user) == todo_row(form2, user),
        todo_row(form1, user).user_id == user.id as i64,
{
}

/// The answer once storing the item succeeded or failed: 500 with
/// "Unknown error", or the confirmation showing the title.
pub fn create_todo_reply(inserted: bool, title: String) -> (reply: TodoReply)
    ensures
        !inserted ==> (reply matches TodoReply::Failed { status, message } && status == 500
            && message@ == "Unknown error"@),
        inserted ==> (reply matches TodoReply::Added { template, context } && template@
            == todo_added_template() && context@ == map!["title_clone"@ => title@]),
{
    if !inserted {
        return TodoReply::Failed { status: 500, message: String::from_str("Unknown error") };
    }
    let mut context = FieldMap::new();
    context.insert(String::from_str("title_clone"), title);
    proof {
        assert(context@ =~= map!["title_clone"@ => title@]);
    }
    TodoReply::Added {
        template: String::from_str("Todo item '{{ title_clone }}' succesfuly added!"),
        context,
    }
}

} // verus!
