use virex::device::{id, random_hex, time_bytes};
use virex::input::{send_copy, send_paste, wait_for_clipboard_change, wait_modifiers_clear, PollStep};
use virex::keychain::{
    clear_license, get_api_key, get_license, has_api_key, seed_from_env_if_empty, Deletion,
    StoredSecret,
};
use virex::updater::{check, check_on_launch, CheckOutcome, CheckStep, DialogKind, InstallStep};

fn s(x: &str) -> String {
    x.to_string()
}

#[test]
fn copy_and_paste_chords() {
    let c = send_copy();
    assert_eq!((c.virtual_key, c.letter), (0x08, 'c'));
    let v = send_paste();
    assert_eq!((v.virtual_key, v.letter), (0x09, 'v'));
}

#[test]
fn clipboard_poll_returns_first_change() {
    let mut poll = wait_for_clipboard_change(Some(s("old")), 120);
    assert!(matches!(poll.on_reading(Some(s("old"))), PollStep::Sleep(50)));
    assert!(matches!(poll.on_reading(Some(s("old"))), PollStep::Sleep(50)));
    match poll.on_reading(Some(s("new"))) {
        PollStep::Done(t) => assert_eq!(t.as_deref(), Some("new")),
        PollStep::Sleep(_) => panic!("changed"),
    }
}

#[test]
fn clipboard_poll_gives_up_at_timeout() {
    let mut poll = wait_for_clipboard_change(None, 100);
    let mut sleeps = 0;
    loop {
        match poll.on_reading(None) {
            PollStep::Sleep(ms) => sleeps += ms,
            PollStep::Done(t) => {
                assert_eq!(t, None);
                break;
            }
        }
    }
    assert_eq!(sleeps, 100);
    assert_eq!(poll.elapsed_ms(), 100);
    let mut zero = wait_for_clipboard_change(Some(s("a")), 0);
    assert!(matches!(zero.on_reading(Some(s("a"))), PollStep::Done(Some(_))));
}

#[test]
fn modifier_wait_is_bounded() {
    let mut w = wait_modifiers_clear();
    let mut checks = 0;
    loop {
        checks += 1;
        let step = w.on_check(true);
        assert_eq!(step.sleep_ms, 20);
        if step.done {
            break;
        }
    }
    assert_eq!(checks, 40);
    let mut w = wait_modifiers_clear();
    assert!(w.on_check(false).done);
}

#[test]
fn keychain_reads() {
    assert_eq!(get_api_key(StoredSecret::Found(s("sk"))), Some(s("sk")));
    assert_eq!(get_api_key(StoredSecret::NoEntry), None);
    assert_eq!(get_api_key(StoredSecret::Failed(s("locked"))), None);
    assert!(has_api_key(StoredSecret::Found(s(""))));
    assert!(!has_api_key(StoredSecret::NoEntry));
    assert_eq!(get_license(StoredSecret::Found(s(" \t"))), None);
    assert_eq!(get_license(StoredSecret::Found(s(" L1 "))), Some(s(" L1 ")));
    assert!(clear_license(Deletion::NoEntry).is_ok());
    assert!(clear_license(Deletion::Deleted).is_ok());
    assert_eq!(clear_license(Deletion::Failed(s("denied"))), Err(s("denied")));
}

#[test]
fn seeding_from_environment() {
    assert_eq!(seed_from_env_if_empty(false, Some("  sk-9 \n")), Some(s("sk-9")));
    assert_eq!(seed_from_env_if_empty(true, Some("sk-9")), None);
    assert_eq!(seed_from_env_if_empty(false, Some("   ")), None);
    assert_eq!(seed_from_env_if_empty(false, None), None);
}

#[test]
fn device_ids() {
    let hex = random_hex(&[0x00, 0x0f, 0xa5, 0xff]);
    assert_eq!(hex, "000fa5ff");
    let fresh = random_hex(&[7u8; 16]);
    assert_eq!(fresh.len(), 32);
    assert_eq!(time_bytes(0x0102_0304u128), 0x0102_0304u128.to_le_bytes().to_vec());
    assert_eq!(time_bytes(u128::MAX), vec![0xffu8; 16]);
    assert_eq!(id(Some("  0123456789abcdef \n")), Some("0123456789abcdef".to_string()));
    assert_eq!(id(Some("0123")), None);
    assert_eq!(id(Some("éééééééé")), Some("éééééééé".to_string()));
    assert_eq!(id(Some("ééééééé")), None);
    assert_eq!(id(None), None);
}

#[test]
fn update_dialogs() {
    match check("1.0.0", CheckOutcome::UpToDate) {
        CheckStep::Tell(d) => {
            assert_eq!(d.title, "Virex is up to date");
            assert_eq!(d.message, "You're on the latest version (1.0.0).");
            assert!(matches!(d.kind, DialogKind::Info));
        }
        CheckStep::Ask { .. } => panic!(),
    }
    match check("1.0.0", CheckOutcome::Failed(s("offline"))) {
        CheckStep::Tell(d) => {
            assert_eq!(d.title, "Update failed");
            assert_eq!(d.message, "Couldn't check for updates.\n\noffline");
        }
        CheckStep::Ask { .. } => panic!(),
    }
    let pending = match check("1.0.0", CheckOutcome::Available { version: s("1.1.0") }) {
        CheckStep::Ask { dialog, pending } => {
            assert_eq!(
                dialog.message,
                "Virex 1.1.0 is available — you're on 1.0.0.\n\nDownload and install it now?"
            );
            assert!(matches!(dialog.kind, DialogKind::Choice { ref confirm, ref decline } if confirm == "Install" && decline == "Later"));
            pending
        }
        CheckStep::Tell(_) => panic!(),
    };
    let installing = pending.on_answer(true).unwrap();
    match installing.on_installed(Ok(())) {
        InstallStep::AskRestart(d) => assert_eq!(d.message, "Virex 1.1.0 is installed. Restart now to use it?"),
        InstallStep::Tell(_) => panic!(),
    }
    let declined = match check("1", CheckOutcome::Available { version: s("2") }) {
        CheckStep::Ask { pending, .. } => pending.on_answer(false),
        CheckStep::Tell(_) => panic!(),
    };
    assert!(declined.is_none());
    match check("1", CheckOutcome::UpdaterUnavailable(s("no key"))) {
        CheckStep::Tell(d) => assert_eq!(d.message, "Couldn't start the updater.\n\nno key"),
        CheckStep::Ask { .. } => panic!(),
    }
}

#[test]
fn launch_check_is_quiet_unless_an_update_exists() {
    assert!(check_on_launch("1.0.0", CheckOutcome::UpToDate).is_none());
    assert!(check_on_launch("1.0.0", CheckOutcome::Failed(s("offline"))).is_none());
    assert!(check_on_launch("1.0.0", CheckOutcome::UpdaterUnavailable(s("no key"))).is_none());
    let (dialog, pending) =
        check_on_launch("1.0.0", CheckOutcome::Available { version: s("1.2.0") }).unwrap();
    assert_eq!(dialog.title, "Update available");
    assert_eq!(
        dialog.message,
        "Virex 1.2.0 is available — you're on 1.0.0.\n\nDownload and install it now?"
    );
    assert!(pending.on_answer(true).is_some());
}
