use uuidgen::flags::Flags;
use uuidgen::format::DispatchError;
use uuidgen::generate::Inputs;
use uuidgen::run::{clipboard_report, plan, Action};

fn flags(copy: bool) -> Flags {
    let mut f = Flags::new();
    f.set_copy(copy);
    f
}

#[test]
fn random_without_copy_shows_one_line() {
    let acts = plan(Some("v4"), &flags(false), &Inputs::standard()).unwrap();
    assert_eq!(acts.len(), 1);
    match &acts[0] {
        Action::Show(s) => assert_eq!(s.len(), 36),
        other => panic!("unexpected {:?}", other),
    }
}

#[test]
fn md5_with_copy_shows_then_copies() {
    let acts = plan(Some("v3"), &flags(true), &Inputs::standard()).unwrap();
    let id = "45a113ac-c7f2-30b0-90a5-a399ab912716".to_string();
    assert_eq!(acts, vec![Action::Show(id.clone()), Action::Copy(id)]);
    assert_eq!(clipboard_report(true), "copy to clipboard!!");
}

#[test]
fn sha1_with_copy_failure_reports_it() {
    let acts = plan(Some("v5"), &flags(true), &Inputs::standard()).unwrap();
    let id = "4be0643f-1d98-573b-97cd-ca98a65347dd".to_string();
    assert_eq!(acts, vec![Action::Show(id.clone()), Action::Copy(id)]);
    assert_eq!(clipboard_report(false), "failed copy to clipboard");
}

#[test]
fn no_format_shows_note_only() {
    for copy in [false, true] {
        let acts = plan(None, &flags(copy), &Inputs::standard()).unwrap();
        assert_eq!(acts, vec![Action::Show("<FORMAT> wasn't used...".to_string())]);
    }
}

#[test]
fn unknown_format_is_an_error() {
    assert_eq!(plan(Some("v9"), &flags(false), &Inputs::standard()), Err(DispatchError::UnknownFormat));
    assert_eq!(plan(Some("v9"), &flags(true), &Inputs::standard()), Err(DispatchError::UnknownFormat));
}

#[test]
fn copy_happens_once_after_show_for_each_format() {
    for t in ["v1", "v3", "v4", "v5"] {
        let acts = plan(Some(t), &flags(true), &Inputs::standard()).unwrap();
        assert_eq!(acts.len(), 2);
        assert_eq!(acts.iter().filter(|a| matches!(a, Action::Copy(_))).count(), 1);
        match (&acts[0], &acts[1]) {
            (Action::Show(s), Action::Copy(c)) => assert_eq!(s, c),
            other => panic!("unexpected {:?}", other),
        }
    }
}

#[test]
fn overflowing_time_plans_an_error() {
    let mut inp = Inputs::standard();
    inp.seconds = u64::MAX;
    assert_eq!(plan(Some("v1"), &flags(true), &inp), Err(DispatchError::TimestampOutOfRange));
}
