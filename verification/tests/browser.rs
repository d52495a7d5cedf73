use dir_browser::browser::{Browser, ListRequest, Trigger};
use dir_browser::listing::{DirectoryEntry, Field, ListError};

fn entry(dir: &str, name: &str, is_dir: bool) -> DirectoryEntry {
    DirectoryEntry {
        name: name.to_string(),
        path: format!("{}/{}", dir, name),
        is_dir,
        is_file: !is_dir,
        is_symlink: false,
        is_block_device: false,
        is_char_device: false,
        is_fifo: false,
        is_socket: false,
        size: 10,
        readonly: false,
        mode: 0o644,
        accessed: "2024-01-02 03:04:05".to_string(),
        created: "2024-01-02 03:04:05".to_string(),
        modified: "2024-01-02 03:04:05".to_string(),
    }
}

fn listing_of(dir: &str) -> Vec<DirectoryEntry> {
    vec![entry(dir, "sub", true), entry(dir, "file.txt", false)]
}

fn open(path: &str) -> Trigger {
    Trigger::Open { path: path.to_string(), is_dir: true }
}

/// Makes the request and delivers its listing at once.
fn go(b: &mut Browser, trigger: Trigger) -> ListRequest {
    let request = b.navigate(trigger).unwrap();
    assert!(b.complete(request.ticket, Ok(listing_of(&request.path))));
    request
}

fn history_paths(b: &Browser) -> Vec<String> {
    let h = b.history();
    (0..h.len()).map(|i| h.path_at(i).unwrap().to_string()).collect()
}

#[test]
fn new_session_starts_in_the_initial_directory_with_nothing_listed() {
    let b = Browser::new();
    assert_eq!(b.current_path(), "/Users/ksh2ksk4/Downloads");
    assert!(b.entries().is_empty());
    assert_eq!(b.error(), None);
}

#[test]
fn initial_load_lists_the_seed() {
    let mut b = Browser::with_seed("/home");
    let request = b.navigate(Trigger::Load).unwrap();
    assert_eq!(request.path, "/home");
    assert_eq!(request.ticket, 0);
    assert!(b.entries().is_empty());
    assert!(b.complete(request.ticket, Ok(listing_of("/home"))));
    assert_eq!(b.current_path(), "/home");
    assert_eq!(b.entries(), &listing_of("/home"));
    assert_eq!(history_paths(&b), vec!["/home"]);
}

#[test]
fn directory_click_publishes_path_and_entries_together() {
    let mut b = Browser::with_seed("/home");
    go(&mut b, Trigger::Load);
    let request = b.navigate(open("/home/sub")).unwrap();
    assert_eq!(request.path, "/home/sub");
    // Nothing is published before the listing arrives.
    assert_eq!(b.current_path(), "/home");
    assert_eq!(b.entries(), &listing_of("/home"));
    assert!(b.complete(request.ticket, Ok(listing_of("/home/sub"))));
    assert_eq!(b.current_path(), "/home/sub");
    assert_eq!(b.entries(), &listing_of("/home/sub"));
    assert_eq!(history_paths(&b), vec!["/home", "/home/sub"]);
    assert_eq!(b.history().position(), 1);
}

#[test]
fn click_on_a_file_is_ignored() {
    let mut b = Browser::with_seed("/home");
    go(&mut b, Trigger::Load);
    let r = b.navigate(Trigger::Open { path: "/home/file.txt".to_string(), is_dir: false });
    assert_eq!(r, None);
    assert_eq!(b.current_path(), "/home");
    assert_eq!(b.entries(), &listing_of("/home"));
    assert_eq!(history_paths(&b), vec!["/home"]);
    // No ticket was spent.
    assert_eq!(b.navigate(Trigger::Load).unwrap().ticket, 1);
}

#[test]
fn dismissed_folder_picker_is_ignored() {
    let mut b = Browser::with_seed("/home");
    go(&mut b, Trigger::Load);
    assert_eq!(b.navigate(Trigger::Pick { folder: None }), None);
    assert_eq!(b.current_path(), "/home");
    assert_eq!(b.entries(), &listing_of("/home"));
    assert_eq!(history_paths(&b), vec!["/home"]);
}

#[test]
fn ignored_trigger_leaves_the_pending_request_alone() {
    let mut b = Browser::with_seed("/home");
    let request = b.navigate(open("/home/sub")).unwrap();
    assert_eq!(b.navigate(Trigger::Pick { folder: None }), None);
    assert!(b.awaits(request.ticket));
    assert!(b.complete(request.ticket, Ok(listing_of("/home/sub"))));
    assert_eq!(b.current_path(), "/home/sub");
}

#[test]
fn picked_folder_is_visited() {
    let mut b = Browser::with_seed("/home");
    go(&mut b, Trigger::Load);
    let request = go(&mut b, Trigger::Pick { folder: Some("/mnt/data".to_string()) });
    assert_eq!(request.path, "/mnt/data");
    assert_eq!(b.current_path(), "/mnt/data");
    assert_eq!(b.entries(), &listing_of("/mnt/data"));
    assert_eq!(history_paths(&b), vec!["/home", "/mnt/data"]);
}

#[test]
fn back_and_forward_walk_the_history() {
    let mut b = Browser::with_seed("/a");
    go(&mut b, Trigger::Load);
    go(&mut b, open("/a/b"));
    go(&mut b, open("/a/b/c"));
    assert_eq!(go(&mut b, Trigger::Back).path, "/a/b");
    assert_eq!(b.current_path(), "/a/b");
    assert_eq!(b.entries(), &listing_of("/a/b"));
    assert_eq!(go(&mut b, Trigger::Back).path, "/a");
    assert_eq!(go(&mut b, Trigger::Forward).path, "/a/b");
    assert_eq!(b.current_path(), "/a/b");
    assert_eq!(history_paths(&b), vec!["/a", "/a/b", "/a/b/c"]);
}

#[test]
fn visit_after_going_back_drops_the_forward_branch() {
    let mut b = Browser::with_seed("/a");
    go(&mut b, Trigger::Load);
    go(&mut b, open("/a/b"));
    go(&mut b, open("/a/b/c"));
    go(&mut b, Trigger::Back);
    go(&mut b, Trigger::Back);
    go(&mut b, open("/d"));
    assert_eq!(history_paths(&b), vec!["/a", "/d"]);
    assert_eq!(b.history().position(), 1);
    assert_eq!(b.current_path(), "/d");
}

#[test]
fn back_at_the_first_entry_lists_the_current_path_again() {
    let mut b = Browser::with_seed("/a");
    go(&mut b, Trigger::Load);
    let request = b.navigate(Trigger::Back).unwrap();
    assert_eq!(request.path, "/a");
    assert!(b.complete(request.ticket, Ok(vec![entry("/a", "new", false)])));
    assert_eq!(b.current_path(), "/a");
    assert_eq!(b.entries(), &vec![entry("/a", "new", false)]);
    assert_eq!(history_paths(&b), vec!["/a"]);
    assert_eq!(b.history().position(), 0);
}

#[test]
fn forward_at_the_last_entry_lists_the_current_path_again() {
    let mut b = Browser::with_seed("/a");
    go(&mut b, Trigger::Load);
    go(&mut b, open("/a/b"));
    let request = go(&mut b, Trigger::Forward);
    assert_eq!(request.path, "/a/b");
    assert_eq!(b.current_path(), "/a/b");
    assert_eq!(history_paths(&b), vec!["/a", "/a/b"]);
    assert_eq!(b.history().position(), 1);
}

#[test]
fn slow_listing_superseded_by_a_later_request_is_never_published() {
    let mut b = Browser::with_seed("/a");
    go(&mut b, Trigger::Load);
    let slow = b.navigate(open("/a/slow")).unwrap();
    let fast = b.navigate(open("/a/fast")).unwrap();
    assert_ne!(slow.ticket, fast.ticket);
    // The later request completes first.
    assert!(b.complete(fast.ticket, Ok(listing_of("/a/fast"))));
    assert_eq!(b.current_path(), "/a/fast");
    assert_eq!(b.entries(), &listing_of("/a/fast"));
    // The earlier one arrives afterwards and is dropped.
    assert!(!b.complete(slow.ticket, Ok(listing_of("/a/slow"))));
    assert_eq!(b.current_path(), "/a/fast");
    assert_eq!(b.entries(), &listing_of("/a/fast"));
    assert_eq!(history_paths(&b), vec!["/a", "/a/fast"]);
}

#[test]
fn superseded_listing_that_arrives_first_is_not_published_either() {
    let mut b = Browser::with_seed("/a");
    go(&mut b, Trigger::Load);
    let slow = b.navigate(open("/a/slow")).unwrap();
    let fast = b.navigate(open("/a/fast")).unwrap();
    assert!(!b.complete(slow.ticket, Ok(listing_of("/a/slow"))));
    assert_eq!(b.current_path(), "/a");
    assert_eq!(b.entries(), &listing_of("/a"));
    assert!(b.complete(fast.ticket, Ok(listing_of("/a/fast"))));
    assert_eq!(b.current_path(), "/a/fast");
    assert_eq!(b.entries(), &listing_of("/a/fast"));
    assert_eq!(history_paths(&b), vec!["/a", "/a/fast"]);
}

#[test]
fn a_completion_is_taken_once() {
    let mut b = Browser::with_seed("/a");
    let request = b.navigate(Trigger::Load).unwrap();
    assert!(b.awaits(request.ticket));
    assert!(b.complete(request.ticket, Ok(listing_of("/a"))));
    assert!(!b.awaits(request.ticket));
    assert!(!b.complete(request.ticket, Ok(vec![])));
    assert_eq!(b.entries(), &listing_of("/a"));
}

#[test]
fn completion_without_a_request_is_ignored() {
    let mut b = Browser::with_seed("/a");
    assert!(!b.complete(0, Ok(listing_of("/a"))));
    assert!(b.entries().is_empty());
    assert_eq!(b.error(), None);
}

#[test]
fn failed_listing_commits_no_history_step_and_keeps_the_listing() {
    let mut b = Browser::with_seed("/a");
    go(&mut b, Trigger::Load);
    let request = b.navigate(open("/a/secret")).unwrap();
    let failure = ListError::Unreadable { cause: "Permission denied (os error 13)".to_string() };
    assert!(b.complete(request.ticket, Err(failure.clone())));
    assert_eq!(b.current_path(), "/a");
    assert_eq!(b.entries(), &listing_of("/a"));
    assert_eq!(history_paths(&b), vec!["/a"]);
    assert_eq!(b.error(), Some(&failure));
    assert_eq!(b.error().unwrap().message(), "Permission denied (os error 13)");
}

#[test]
fn next_successful_listing_clears_the_error() {
    let mut b = Browser::with_seed("/a");
    go(&mut b, Trigger::Load);
    let request = b.navigate(open("/a/x")).unwrap();
    let failure = ListError::MetadataUnavailable {
        index: 2,
        field: Field::Created,
        cause: "no btime".to_string(),
    };
    b.complete(request.ticket, Err(failure));
    assert!(b.error().is_some());
    go(&mut b, open("/a/y"));
    assert_eq!(b.error(), None);
    assert_eq!(b.current_path(), "/a/y");
    assert_eq!(history_paths(&b), vec!["/a", "/a/y"]);
}

#[test]
fn tickets_count_up_with_each_request() {
    let mut b = Browser::with_seed("/a");
    assert_eq!(b.navigate(Trigger::Load).unwrap().ticket, 0);
    assert_eq!(b.navigate(Trigger::Back).unwrap().ticket, 1);
    assert_eq!(b.navigate(open("/a/b")).unwrap().ticket, 2);
    assert!(!b.awaits(0));
    assert!(!b.awaits(1));
    assert!(b.awaits(2));
}

#[test]
fn reopening_the_current_directory_appends_it_again() {
    let mut b = Browser::with_seed("/a");
    go(&mut b, Trigger::Load);
    go(&mut b, open("/a"));
    assert_eq!(history_paths(&b), vec!["/a", "/a"]);
    assert_eq!(b.history().position(), 1);
    assert_eq!(b.current_path(), "/a");
}

#[test]
fn published_entries_always_belong_to_the_current_path() {
    let mut b = Browser::with_seed("/a");
    assert_eq!(b.listed_path(), None);
    let mut open_requests: Vec<ListRequest> = Vec::new();
    let mut state: u32 = 99;
    for round in 0..400 {
        state = state.wrapping_mul(1664525).wrapping_add(1013904223);
        let trigger = match (state >> 24) % 7 {
            0 => Trigger::Load,
            1 => Trigger::Back,
            2 => Trigger::Forward,
            3 => Trigger::Open { path: format!("/a/d{}", round), is_dir: true },
            4 => Trigger::Open { path: format!("/a/f{}", round), is_dir: false },
            5 => Trigger::Pick { folder: Some(format!("/p{}", round)) },
            _ => Trigger::Pick { folder: None },
        };
        if let Some(request) = b.navigate(trigger) {
            open_requests.push(request);
        }
        // Deliver some outstanding listing, not necessarily the latest.
        if (state >> 8) % 2 == 0 && !open_requests.is_empty() {
            let pick = ((state >> 12) as usize) % open_requests.len();
            let request = open_requests.remove(pick);
            let latest = b.awaits(request.ticket);
            let outcome = if (state >> 4) % 5 == 0 {
                Err(ListError::Unreadable { cause: "gone".to_string() })
            } else {
                Ok(listing_of(&request.path))
            };
            let fails = outcome.is_err();
            assert_eq!(b.complete(request.ticket, outcome), latest);
            if latest && !fails {
                assert_eq!(b.listed_path(), Some(request.path.as_str()));
            }
        }
        match b.listed_path() {
            Some(path) => {
                assert_eq!(path, b.current_path());
                assert_eq!(b.entries(), &listing_of(path));
            }
            None => assert!(b.entries().is_empty()),
        }
        assert!(b.history().position() < b.history().len());
    }
}

#[test]
fn listed_path_follows_each_published_listing() {
    let mut b = Browser::with_seed("/a");
    assert_eq!(b.listed_path(), None);
    go(&mut b, Trigger::Load);
    assert_eq!(b.listed_path(), Some("/a"));
    go(&mut b, open("/a/b"));
    assert_eq!(b.listed_path(), Some("/a/b"));
    go(&mut b, Trigger::Back);
    assert_eq!(b.listed_path(), Some("/a"));
    let request = b.navigate(open("/a/c")).unwrap();
    b.complete(request.ticket, Err(ListError::Unreadable { cause: "gone".to_string() }));
    assert_eq!(b.listed_path(), Some("/a"));
    assert_eq!(b.current_path(), "/a");
}

#[test]
fn failed_first_listing_leaves_nothing_published() {
    let mut b = Browser::with_seed("/missing");
    let request = b.navigate(Trigger::Load).unwrap();
    let failure = ListError::Unreadable { cause: "No such file or directory".to_string() };
    assert!(b.complete(request.ticket, Err(failure.clone())));
    assert_eq!(b.listed_path(), None);
    assert!(b.entries().is_empty());
    assert_eq!(b.error(), Some(&failure));
    assert_eq!(b.current_path(), "/missing");
}
