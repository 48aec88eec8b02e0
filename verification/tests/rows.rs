use rath_demo::turso_helper::{count, fetch_optional, FetchAll, RowRead};

fn run(reads: Vec<RowRead<Result<i32, String>>>) -> Result<Vec<i32>, String> {
    let mut fetch = FetchAll::new();
    for read in reads {
        if let Some(done) = fetch.step(read) {
            return done;
        }
    }
    panic!("the reads did not end");
}

#[test]
fn count_reads_first_column() {
    assert_eq!(count(RowRead::Row(Some(3))), 3);
    assert_eq!(count(RowRead::Row(None)), 0);
    assert_eq!(count(RowRead::End), 0);
    assert_eq!(count(RowRead::Failed("io".to_string())), 0);
}

#[test]
fn fetch_optional_first_row() {
    assert_eq!(fetch_optional(RowRead::Row(Ok::<i32, String>(5))), Ok(Some(5)));
    assert_eq!(fetch_optional(RowRead::Row(Err::<i32, String>("bad row".to_string()))), Err("bad row".to_string()));
    assert_eq!(fetch_optional::<i32>(RowRead::End), Ok(None));
    assert_eq!(fetch_optional::<i32>(RowRead::Failed("io".to_string())), Err("io".to_string()));
}

#[test]
fn fetch_all_collects_until_end() {
    assert_eq!(run(vec![RowRead::Row(Ok(1)), RowRead::Row(Ok(2)), RowRead::End]), Ok(vec![1, 2]));
    assert_eq!(run(vec![RowRead::End]), Ok(vec![]));
    assert_eq!(run(vec![RowRead::Row(Ok(1)), RowRead::Failed("io".to_string())]), Err("io".to_string()));
    assert_eq!(run(vec![RowRead::Failed("io".to_string())]), Err("io".to_string()));
    assert_eq!(
        run(vec![RowRead::Row(Ok(1)), RowRead::Row(Err("bad".to_string())), RowRead::Row(Ok(3))]),
        Err("bad".to_string())
    );
}

#[test]
fn fetch_optional_is_first_of_fetch_all() {
    let all = run(vec![RowRead::Row(Ok(9)), RowRead::Row(Ok(8)), RowRead::End]).unwrap();
    assert_eq!(fetch_optional(RowRead::Row(Ok::<i32, String>(9))), Ok(all.first().copied()));
}
