use rath_demo::error_handlers::{error_429, error_500};
use rath_demo::fields::FieldMap;
use rath_demo::models::todo_item::TodoItemRequest;
use rath_demo::models::user::User;
use rath_demo::not_htmx_predicate;
use rath_demo::render_html::{
    render, render_block, render_block_plan, render_html, render_html_plan, render_str, RenderPlan, Rendered,
};
use rath_demo::routes::error_404::{handle_page_404, handle_static_404};
use rath_demo::routes::todos::create_todo::{create_todo, create_todo_reply, TodoReply};

#[test]
fn plans() {
    assert!(matches!(render_html_plan(false), RenderPlan::Whole));
    match render_html_plan(true) {
        RenderPlan::TitleAndBlock { block } => assert_eq!(block, "body"),
        _ => panic!("boosted pages render the body block"),
    }
    match render_block_plan("errors") {
        RenderPlan::TitleAndBlock { block } => assert_eq!(block, "errors"),
        _ => panic!("a block is rendered with the title"),
    }
}

#[test]
fn render_minifies() {
    let html = render(Rendered::Whole("<p>a</p>".to_string())).unwrap();
    assert_eq!(html, "<p>a</p>");
    let doc = "<div>\n    <b>x</b>   y\n</div>";
    assert_eq!(render(Rendered::Whole(doc.to_string())).unwrap(), html_minifier::minify(doc).unwrap());
    assert_ne!(render(Rendered::Whole(doc.to_string())).unwrap(), doc);
}

#[test]
fn render_puts_title_before_block() {
    let html = render(Rendered::TitleAndBlock { title: "Login".to_string(), body: "<main>hi</main>".to_string() })
        .unwrap();
    assert_eq!(html, html_minifier::minify("<title>Login</title>\n<main>hi</main>").unwrap());
    assert!(html.starts_with("<title>Login</title>"));
}

#[test]
fn fallback_page() {
    assert_eq!(render_html(Err("boom".to_string())).unwrap(), "Woopsie! Something broke!");
    assert_eq!(render_block(Err("boom".to_string())).unwrap(), "Woopsie! Something broke!");
    assert_eq!(render_str(Err("boom".to_string())).unwrap(), "Woopsie! Something broke!");
    assert_eq!(render_html(Ok("<p>ok</p>".to_string())).unwrap(), "<p>ok</p>");
    assert_eq!(render_str(Ok("x".to_string())).unwrap(), "x");
}

#[test]
fn not_found() {
    assert_eq!(handle_static_404(), (404, "Not found"));
    assert_eq!(handle_page_404(Ok("<h1>404</h1>".to_string())), (404, "<h1>404</h1>".to_string()));
    assert_eq!(handle_page_404(Err("missing".to_string())), (404, "Woopsie! Something broke!".to_string()));
}

#[test]
fn error_bodies() {
    assert_eq!(error_500(), "An error occurred.");
    assert_eq!(error_429(), "Hold your horses! You are doing too many requests.");
}

#[test]
fn htmx_requests() {
    assert!(not_htmx_predicate(&vec![]));
    assert!(not_htmx_predicate(&vec!["accept".to_string(), "hx-boosted".to_string()]));
    assert!(!not_htmx_predicate(&vec!["accept".to_string(), "hx-request".to_string()]));
    assert!(!not_htmx_predicate(&vec!["HX-Request".to_string()]));
    assert!(not_htmx_predicate(&vec!["hx-requests".to_string(), "hx-reques".to_string()]));
}

#[test]
fn todo_is_owned_by_signed_in_user() {
    let user = User { id: 42, email: "a@b.c".to_string(), password: "h".to_string(), created_at: 0 };
    let form = TodoItemRequest { id: 0, title: "Walk".to_string(), date: 86400, user_id: 7 };
    let row = create_todo(form, &user);
    assert_eq!((row.title.as_str(), row.date, row.user_id), ("Walk", 86400, 42));
}

#[test]
fn todo_replies() {
    match create_todo_reply(false, "Walk".to_string()) {
        TodoReply::Failed { status, message } => {
            assert_eq!(status, 500);
            assert_eq!(message, "Unknown error");
        }
        _ => panic!("expected a failure"),
    }
    match create_todo_reply(true, "Walk".to_string()) {
        TodoReply::Added { template, context } => {
            assert_eq!(template, "Todo item '{{ title_clone }}' succesfuly added!");
            assert_eq!(context.pairs().clone(), vec![("title_clone".to_string(), "Walk".to_string())]);
        }
        _ => panic!("expected the confirmation"),
    }
}

#[test]
fn field_map_keeps_one_entry_per_name() {
    let mut map = FieldMap::new();
    assert!(map.is_empty());
    map.insert("a".to_string(), "1".to_string());
    map.insert("b".to_string(), "2".to_string());
    map.insert("a".to_string(), "3".to_string());
    assert!(!map.is_empty());
    assert_eq!(map.pairs().clone(), vec![("a".to_string(), "3".to_string()), ("b".to_string(), "2".to_string())]);
}
