use file_browser::nav::Browser;

fn strings(names: &[&str]) -> Vec<String> {
    names.iter().map(|s| s.to_string()).collect()
}

#[test]
fn starts_at_root_with_selection_zero() {
    let b = Browser::new(strings(&["a", "b"]));
    assert!(b.path_stack.is_empty());
    assert_eq!(b.listing, strings(&["a", "b"]));
    assert_eq!(b.selected, 0);
}

#[test]
fn move_down_then_open_file_leaves_state_unchanged() {
    // Listing ["a", "b.txt"], selection 0: MoveDown selects 1; Open on the
    // file "b.txt" changes nothing.
    let mut b = Browser::new(strings(&["a", "b.txt"]));
    b.move_down();
    assert_eq!(b.selected, 1);
    b.open(false, Vec::new());
    assert!(b.path_stack.is_empty());
    assert_eq!(b.listing, strings(&["a", "b.txt"]));
    assert_eq!(b.selected, 1);
}

#[test]
fn open_directory_then_back_restores_stack() {
    // Open on directory "sub" pushes it and resets the selection; Back pops
    // it and reloads the parent listing.
    let mut b = Browser::new(strings(&["sub", "file.txt"]));
    b.move_down();
    b.move_up();
    assert_eq!(b.selected, 0);
    b.open(true, strings(&["inner.txt"]));
    assert_eq!(b.path_stack, strings(&["sub"]));
    assert_eq!(b.listing, strings(&["inner.txt"]));
    assert_eq!(b.selected, 0);
    b.back(strings(&["sub", "file.txt"]));
    assert!(b.path_stack.is_empty());
    assert_eq!(b.listing, strings(&["sub", "file.txt"]));
    assert_eq!(b.selected, 0);
}

#[test]
fn back_on_empty_stack_is_a_noop() {
    let mut b = Browser::new(strings(&["a"]));
    b.move_down();
    b.back(strings(&["other"]));
    assert!(b.path_stack.is_empty());
    assert_eq!(b.listing, strings(&["a"]));
    assert_eq!(b.selected, 0);
}

#[test]
fn open_on_empty_listing_is_a_noop() {
    let mut b = Browser::new(Vec::new());
    b.open(true, strings(&["x"]));
    assert!(b.path_stack.is_empty());
    assert!(b.listing.is_empty());
    assert_eq!(b.selected, 0);
}

#[test]
fn selection_saturates_at_both_ends() {
    let mut b = Browser::new(strings(&["a", "b", "c"]));
    b.move_up();
    assert_eq!(b.selected, 0);
    b.move_down();
    b.move_down();
    b.move_down();
    b.move_down();
    assert_eq!(b.selected, 2);
}

#[test]
fn selection_stays_zero_on_empty_listing() {
    let mut b = Browser::new(Vec::new());
    b.move_down();
    b.move_up();
    b.move_down();
    assert_eq!(b.selected, 0);
}

#[test]
fn selected_entry_path_joins_stack_and_name() {
    let mut b = Browser::new(strings(&["sub"]));
    b.open(true, strings(&["f.txt", "g.txt"]));
    b.move_down();
    assert_eq!(b.selected_entry_path(), Some("./sub/g.txt".to_string()));
}

#[test]
fn selected_entry_path_is_none_on_empty_listing() {
    let b = Browser::new(Vec::new());
    assert_eq!(b.selected_entry_path(), None);
}

#[test]
fn parent_path_drops_the_top_entry() {
    let mut b = Browser::new(strings(&["a"]));
    assert_eq!(b.parent_path(), None);
    b.open(true, strings(&["b"]));
    assert_eq!(b.parent_path(), Some("./".to_string()));
    b.open(true, strings(&["c"]));
    assert_eq!(b.parent_path(), Some("./a".to_string()));
}

#[test]
fn rename_target_is_the_selected_name() {
    let mut b = Browser::new(strings(&["old.txt", "other"]));
    assert_eq!(b.rename_target(), Some("old.txt".to_string()));
    b.move_down();
    assert_eq!(b.rename_target(), Some("other".to_string()));
    let empty = Browser::new(Vec::new());
    assert_eq!(empty.rename_target(), None);
}

#[test]
fn rename_with_blank_input_changes_nothing() {
    // An input that is empty after trimming decides no rename at all.
    let b = Browser::new(strings(&["old.txt"]));
    assert_eq!(b.rename_request(&"\n".to_string()), None);
    assert_eq!(b.rename_request(&"   \n".to_string()), None);
    assert_eq!(b.rename_request(&"".to_string()), None);
    assert_eq!(b.listing, strings(&["old.txt"]));
}

#[test]
fn rename_request_trims_the_typed_line() {
    let mut b = Browser::new(strings(&["sub"]));
    b.open(true, strings(&["old.txt"]));
    let (old_path, new_path) = b.rename_request(&"  new.txt \n".to_string()).unwrap();
    assert_eq!(old_path, "./sub/old.txt");
    assert_eq!(new_path, "./sub/new.txt");
}

#[test]
fn rename_success_refresh_replaces_old_name_with_new() {
    // Rename "old.txt" -> "new.txt": the refreshed listing no longer holds
    // the old name and holds the new one.
    let mut b = Browser::new(strings(&["old.txt", "keep.txt"]));
    let (old_path, new_path) = b.rename_request(&"new.txt\n".to_string()).unwrap();
    // At the root the resolved prefix is "./" and the join adds its own
    // separator, exactly as the path formatting always has.
    assert_eq!(old_path, ".//old.txt");
    assert_eq!(new_path, ".//new.txt");
    b.apply_rename(strings(&["keep.txt", "new.txt"]));
    assert!(!b.listing.contains(&"old.txt".to_string()));
    assert!(b.listing.contains(&"new.txt".to_string()));
    assert_eq!(b.selected, 0);
}

#[test]
fn rename_refresh_reclamps_the_selection() {
    let mut b = Browser::new(strings(&["a", "b", "c"]));
    b.move_down();
    b.move_down();
    assert_eq!(b.selected, 2);
    b.apply_rename(strings(&["x", "y"]));
    assert_eq!(b.selected, 1);
    b.apply_rename(Vec::new());
    assert_eq!(b.selected, 0);
}

#[test]
fn current_path_follows_the_stack() {
    let mut b = Browser::new(strings(&["a"]));
    assert_eq!(b.current_path(), "./");
    b.open(true, strings(&["b"]));
    assert_eq!(b.current_path(), "./a");
    b.open(true, strings(&["c"]));
    assert_eq!(b.current_path(), "./a/b");
}
