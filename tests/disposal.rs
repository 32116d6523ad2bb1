use ddh_remover::{
    destination_for, join_destination, plan_path, settle, Args, Disposal, Duplicates, HDDError,
    PathOutcome, WorkItem,
};

fn group(paths: &[&str]) -> Duplicates {
    Duplicates::new(10, paths.iter().map(|p| p.to_string()).collect(), None, Some(2))
}

#[test]
fn move_destination_is_dir_and_file_name() {
    assert_eq!(destination_for("/out", "/data/x/a.jpg"), Ok("/out/a.jpg".to_owned()));
    assert_eq!(join_destination("/out", "a.jpg"), "/out/a.jpg");
}

#[test]
fn move_destination_needs_a_file_name() {
    assert_eq!(destination_for("/out", "/"), Err(HDDError::FileName("/".to_owned())));
    assert_eq!(destination_for("/out", ""), Err(HDDError::FileName("".to_owned())));
    assert_eq!(destination_for("/out", "a/.."), Err(HDDError::FileName("a/..".to_owned())));
}

#[test]
fn move_plan_names_destinations() {
    let g = group(&["/data/x/a.jpg", "/data/y/b.jpg"]);
    let wi = WorkItem::new(&g, Args::new(0, Some("/out".to_owned()), false, None));
    assert_eq!(
        wi.run(),
        vec![
            Disposal::Move("/data/x/a.jpg".to_owned(), "/out/a.jpg".to_owned()),
            Disposal::Move("/data/y/b.jpg".to_owned(), "/out/b.jpg".to_owned()),
        ]
    );
    assert_eq!(wi.moveto(), wi.run());
}

#[test]
fn delete_plan_lists_paths() {
    let g = group(&["b", "a", "c"]);
    let wi = WorkItem::new(&g, Args::new(1, None, false, None));
    assert_eq!(
        wi.run(),
        vec![Disposal::Delete("b".to_owned()), Disposal::Delete("c".to_owned())]
    );
    assert_eq!(wi.delete(), wi.run());
}

#[test]
fn dry_run_only_skips() {
    let g = group(&["/d/b", "/d/a", "/d/c"]);
    for dest in [None, Some("/out".to_owned())] {
        let wi = WorkItem::new(&g, Args::new(1, dest, true, None));
        let plan = wi.run();
        assert_eq!(plan, vec![Disposal::Skip("/d/b".to_owned()), Disposal::Skip("/d/c".to_owned())]);
        for d in plan {
            let p = match &d {
                Disposal::Skip(p) => p.clone(),
                _ => unreachable!(),
            };
            let failed = Err(HDDError::Io("boom".to_owned()));
            assert_eq!(settle(d, failed), PathOutcome::Skipped(p));
        }
    }
}

#[test]
fn unnamed_path_fails_alone() {
    let g = group(&["/", "/d/a"]);
    let wi = WorkItem::new(&g, Args::new(0, Some("/out".to_owned()), false, None));
    let outcomes: Vec<PathOutcome> = wi.run().into_iter().map(|d| settle(d, Ok(()))).collect();
    assert_eq!(
        outcomes,
        vec![
            PathOutcome::Failed("/".to_owned(), HDDError::FileName("/".to_owned())),
            PathOutcome::Moved("/d/a".to_owned(), "/out/a".to_owned()),
        ]
    );
}

#[test]
fn settle_reports_each_answer() {
    let none: Option<String> = None;
    let d = plan_path(&"x".to_owned(), &none, false);
    assert_eq!(settle(d.clone(), Ok(())), PathOutcome::Deleted("x".to_owned()));
    let e = HDDError::Io("No such file or directory (os error 2)".to_owned());
    assert_eq!(settle(d, Err(e.clone())), PathOutcome::Failed("x".to_owned(), e));
    let m = Disposal::Move("a/b".to_owned(), "o/b".to_owned());
    let e = HDDError::FSExtra("Path \"a/b\" does not exist".to_owned());
    assert_eq!(settle(m.clone(), Err(e.clone())), PathOutcome::Failed("a/b".to_owned(), e));
    assert_eq!(settle(m, Ok(())), PathOutcome::Moved("a/b".to_owned(), "o/b".to_owned()));
}

#[test]
fn error_messages() {
    assert_eq!(
        HDDError::MoveDest("x".to_owned()).message(),
        "An error while moving file occurred (\"x\")"
    );
    assert_eq!(
        HDDError::FileName("a\"b".to_owned()).message(),
        "An error while getting the file name occurred (\"a\\\"b\")"
    );
    assert_eq!(HDDError::Io("denied".to_owned()).message(), "denied");
    assert_eq!(HDDError::FSExtra("gone".to_owned()).message(), "gone");
}
