use dirpanes::entry::{entry_precedes_or_equal, folded_entry_le, DirectoryEntry, SortMode};
use dirpanes::names::{chars_of, chars_precede_or_equal, directory_label, folded_chars, join_path, parent_path};

fn precedes_or_equal(a: &str, b: &str) -> bool {
    chars_precede_or_equal(&chars_of(a), &chars_of(b))
}
use dirpanes::reading::{DirectoryRead, IoError};
use dirpanes::sorting::{folded_names, sort_entries_stably};
use dirpanes::window::{position_of, Window};

fn file(name: &str) -> DirectoryEntry {
    DirectoryEntry::new(name.to_string(), false, false)
}

fn dir(name: &str) -> DirectoryEntry {
    DirectoryEntry::new(name.to_string(), true, false)
}

fn read(path: &str, entries: Vec<DirectoryEntry>) -> Result<DirectoryRead, IoError> {
    Ok(DirectoryRead::new(path.to_string(), entries))
}

fn names(w: &Window) -> Vec<String> {
    w.entries.iter().map(|e| e.name.clone()).collect()
}

fn numbered(count: usize) -> Vec<DirectoryEntry> {
    (0..count).map(|i| file(&format!("entry{:02}", i))).collect()
}

#[test]
fn sort_mode_cycles() {
    assert_eq!(SortMode::Ungrouped.next(), SortMode::DirectoriesFirst);
    assert_eq!(SortMode::DirectoriesFirst.next(), SortMode::Ungrouped);
    assert_eq!(SortMode::Ungrouped.next().next(), SortMode::Ungrouped);
    assert_eq!(SortMode::DirectoriesFirst.next().next(), SortMode::DirectoriesFirst);
}

#[test]
fn names_compare_by_code_point() {
    assert!(precedes_or_equal("", ""));
    assert!(precedes_or_equal("", "a"));
    assert!(!precedes_or_equal("a", ""));
    assert!(precedes_or_equal("abc", "abc"));
    assert!(precedes_or_equal("ab", "abc"));
    assert!(!precedes_or_equal("abc", "ab"));
    assert!(precedes_or_equal("abc", "abd"));
    assert!(!precedes_or_equal("abd", "abc"));
    assert!(precedes_or_equal("B", "a"));
    assert!(!precedes_or_equal("a", "B"));
    assert!(precedes_or_equal("z", "é"));
    assert!(!precedes_or_equal("é", "z"));
}

#[test]
fn chars_of_a_text() {
    assert_eq!(chars_of(""), Vec::<char>::new());
    assert_eq!(chars_of("a/b"), vec!['a', '/', 'b']);
    assert_eq!(chars_of("été"), vec!['é', 't', 'é']);
}

#[test]
fn folded_chars_are_lower_case() {
    assert_eq!(folded_chars("ReadMe.TXT"), chars_of("readme.txt"));
    assert_eq!(folded_chars("ÉTÉ"), vec!['é', 't', 'é']);
    assert_eq!(folded_chars("already"), chars_of("already"));
    assert_eq!(folded_chars(""), Vec::<char>::new());
}

#[test]
fn folded_names_follow_the_entries() {
    let entries = vec![file("B"), dir("a"), file("Cc")];
    assert_eq!(folded_names(&entries), vec![vec!['b'], vec!['a'], vec!['c', 'c']]);
    assert!(folded_names(&Vec::new()).is_empty());
}

#[test]
fn chars_compare_by_code_point() {
    assert!(chars_precede_or_equal(&chars_of("ab"), &chars_of("abc")));
    assert!(!chars_precede_or_equal(&chars_of("abc"), &chars_of("ab")));
    assert!(chars_precede_or_equal(&chars_of("abc"), &chars_of("abc")));
    assert!(chars_precede_or_equal(&chars_of("Z"), &chars_of("a")));
    assert!(!chars_precede_or_equal(&chars_of("b"), &chars_of("a")));
    assert!(chars_precede_or_equal(&Vec::new(), &Vec::new()));
}

#[test]
fn folded_names_decide_inside_a_group() {
    let a = chars_of("a");
    let b = chars_of("b");
    assert!(folded_entry_le(&a, false, &b, false, SortMode::Ungrouped));
    assert!(!folded_entry_le(&b, false, &a, false, SortMode::Ungrouped));
    assert!(folded_entry_le(&a, false, &b, true, SortMode::Ungrouped));
    assert!(!folded_entry_le(&a, false, &b, true, SortMode::DirectoriesFirst));
    assert!(folded_entry_le(&b, true, &a, false, SortMode::DirectoriesFirst));
    assert!(folded_entry_le(&a, true, &b, true, SortMode::DirectoriesFirst));
    assert!(!folded_entry_le(&b, true, &a, true, SortMode::DirectoriesFirst));
    assert!(folded_entry_le(&a, true, &a, true, SortMode::DirectoriesFirst));
}

#[test]
fn sort_of_many_entries() {
    let mut entries: Vec<DirectoryEntry> = Vec::new();
    for i in 0..200usize {
        let n = (i * 73) % 200;
        let name = if n % 2 == 0 { format!("Name{:03}", n) } else { format!("name{:03}", n) };
        entries.push(DirectoryEntry::new(name, n % 5 == 0, false));
    }
    let mut plain = entries.clone();
    sort_entries_stably(&mut plain, SortMode::Ungrouped);
    for (i, e) in plain.iter().enumerate() {
        assert_eq!(e.name.to_lowercase(), format!("name{:03}", i));
    }
    sort_entries_stably(&mut entries, SortMode::DirectoriesFirst);
    for (i, e) in entries.iter().enumerate() {
        assert_eq!(e.is_directory, i < 40);
    }
    for pair in entries.windows(2) {
        if pair[0].is_directory == pair[1].is_directory {
            assert!(pair[0].name.to_lowercase() < pair[1].name.to_lowercase());
        }
    }
}

#[test]
fn entries_compare_without_regard_to_case() {
    assert!(entry_precedes_or_equal(&file("a"), &file("B"), SortMode::Ungrouped));
    assert!(!entry_precedes_or_equal(&file("B"), &file("a"), SortMode::Ungrouped));
    assert!(entry_precedes_or_equal(&file("README"), &file("readme"), SortMode::Ungrouped));
    assert!(entry_precedes_or_equal(&file("readme"), &file("README"), SortMode::Ungrouped));
    assert!(entry_precedes_or_equal(&dir("zeta"), &file("Alpha"), SortMode::DirectoriesFirst));
    assert!(!entry_precedes_or_equal(&file("Alpha"), &dir("zeta"), SortMode::DirectoriesFirst));
    assert!(entry_precedes_or_equal(&file("Alpha"), &dir("zeta"), SortMode::Ungrouped));
}

#[test]
fn ungrouped_sort_orders_by_folded_name() {
    let mut entries = vec![file("B"), dir("c"), file("a"), file("D")];
    sort_entries_stably(&mut entries, SortMode::Ungrouped);
    let got: Vec<&str> = entries.iter().map(|e| e.name.as_str()).collect();
    assert_eq!(got, vec!["a", "B", "c", "D"]);
    assert!(entries[2].is_directory);
}

#[test]
fn directories_first_sort_groups_then_orders() {
    let mut entries = vec![file("b.txt"), dir("Zoo"), file("A.txt"), dir("apps"), file("c")];
    sort_entries_stably(&mut entries, SortMode::DirectoriesFirst);
    let got: Vec<(&str, bool)> = entries.iter().map(|e| (e.name.as_str(), e.is_directory)).collect();
    assert_eq!(
        got,
        vec![("apps", true), ("Zoo", true), ("A.txt", false), ("b.txt", false), ("c", false)]
    );
    let first_file = entries.iter().position(|e| !e.is_directory).unwrap();
    assert!(entries[first_file..].iter().all(|e| !e.is_directory));
    for pair in entries.windows(2) {
        if pair[0].is_directory == pair[1].is_directory {
            assert!(pair[0].name.to_lowercase() <= pair[1].name.to_lowercase());
        }
    }
}

#[test]
fn sort_keeps_equivalent_entries_in_read_order() {
    let mut entries = vec![file("readme"), file("README"), file("ReadMe"), file("a")];
    sort_entries_stably(&mut entries, SortMode::Ungrouped);
    let got: Vec<&str> = entries.iter().map(|e| e.name.as_str()).collect();
    assert_eq!(got, vec!["a", "readme", "README", "ReadMe"]);

    let mut entries = vec![file("README"), file("ReadMe"), file("readme")];
    sort_entries_stably(&mut entries, SortMode::DirectoriesFirst);
    let got: Vec<&str> = entries.iter().map(|e| e.name.as_str()).collect();
    assert_eq!(got, vec!["README", "ReadMe", "readme"]);
}

#[test]
fn sort_of_nothing_and_of_one() {
    let mut entries: Vec<DirectoryEntry> = Vec::new();
    sort_entries_stably(&mut entries, SortMode::DirectoriesFirst);
    assert!(entries.is_empty());
    let mut entries = vec![file("only")];
    sort_entries_stably(&mut entries, SortMode::Ungrouped);
    assert_eq!(entries.len(), 1);
    assert_eq!(entries[0].name, "only");
}

#[test]
fn labels_are_last_segments() {
    assert_eq!(directory_label("/"), "/");
    assert_eq!(directory_label(""), "/");
    assert_eq!(directory_label("/root"), "root");
    assert_eq!(directory_label("/home/user/projects"), "projects");
    assert_eq!(directory_label("relative"), "relative");
    assert_eq!(directory_label("/trailing/"), "");
    assert_eq!(directory_label("/données/été"), "été");
}

#[test]
fn paths_are_joined_with_a_separator() {
    assert_eq!(join_path("/root", "sub"), "/root/sub");
    assert_eq!(join_path("/", "etc"), "//etc");
    assert_eq!(parent_path("/root/sub"), "/root/sub/..");
}

#[test]
fn open_lists_sorted_with_cursor_on_top() {
    let w = Window::build_from_path_no_symlink(read("/srv/data", vec![file("b"), dir("A"), file("c")])).unwrap();
    assert_eq!(w.path, "/srv/data");
    assert_eq!(w.current_dir_name(), "data");
    assert_eq!(names(&w), vec!["A", "b", "c"]);
    assert_eq!(w.selected, 0);
    assert_eq!(w.scroll_y, 0);
    assert_eq!(w.sort_mode, SortMode::Ungrouped);
}

#[test]
fn open_hands_on_each_error() {
    for e in [IoError::NotFound, IoError::PermissionDenied, IoError::NotADirectory, IoError::Other] {
        match Window::build_from_path_no_symlink(Err(e)) {
            Err(got) => assert_eq!(got, e),
            Ok(_) => panic!("a failed read gave a pane"),
        }
    }
}

#[test]
fn refresh_clamps_the_cursor() {
    let mut w = Window::build_from_path_no_symlink(read("/d", numbered(5))).unwrap();
    w.selected = 4;
    w.scroll_y = 2;
    assert_eq!(w.refresh(read("/d", numbered(3))), Ok(()));
    assert_eq!(w.selected, 2);
    assert_eq!(w.scroll_y, 0);
    assert_eq!(w.entries.len(), 3);
    assert_eq!(w.refresh(read("/d", numbered(8))), Ok(()));
    assert_eq!(w.selected, 2);
    assert_eq!(w.refresh(read("/d", Vec::new())), Ok(()));
    assert_eq!(w.selected, 0);
    assert!(w.entries.is_empty());
    assert_eq!(w.refresh(read("/d", numbered(4))), Ok(()));
    assert_eq!(w.selected, 0);
    assert!(w.selected < w.entries.len());
}

#[test]
fn refresh_applies_the_current_mode() {
    let mut w = Window::build_from_path_no_symlink(read("/d", vec![file("a"), dir("b")])).unwrap();
    w.set_sort_mode(SortMode::DirectoriesFirst);
    assert_eq!(names(&w), vec!["b", "a"]);
    assert_eq!(w.refresh(read("/e", vec![file("x"), dir("y"), dir("W")])), Ok(()));
    assert_eq!(names(&w), vec!["W", "y", "x"]);
    assert_eq!(w.path, "/e");
    assert_eq!(w.current_dir_name(), "e");
    assert_eq!(w.sort_mode, SortMode::DirectoriesFirst);
}

#[test]
fn failed_refresh_changes_nothing() {
    let mut w = Window::build_from_path_no_symlink(read("/d", numbered(5))).unwrap();
    w.selected = 3;
    w.scroll_y = 1;
    for e in [IoError::NotFound, IoError::PermissionDenied, IoError::NotADirectory, IoError::Other] {
        assert_eq!(w.refresh(Err(e)), Err(e));
        assert_eq!(w.path, "/d");
        assert_eq!(w.current_dir_name(), "d");
        assert_eq!(w.entries.len(), 5);
        assert_eq!(w.selected, 3);
        assert_eq!(w.scroll_y, 1);
    }
}

#[test]
fn cursor_stops_at_both_ends() {
    let mut w = Window::build_from_path_no_symlink(read("/d", numbered(4))).unwrap();
    assert!(!w.move_up());
    assert_eq!(w.selected, 0);
    assert!(w.move_down());
    assert!(w.move_down());
    assert!(w.move_down());
    assert_eq!(w.selected, 3);
    assert!(!w.move_down());
    assert_eq!(w.selected, 3);
    assert!(w.move_up());
    assert_eq!(w.selected, 2);
}

#[test]
fn moving_down_as_often_as_there_are_entries() {
    let mut w = Window::build_from_path_no_symlink(read("/d", numbered(6))).unwrap();
    let count = w.entries.len();
    let mut last = true;
    for _ in 0..count {
        last = w.move_selection(1);
    }
    assert_eq!(w.selected, count - 1);
    assert!(!last);
}

#[test]
fn move_selection_by_sign() {
    let mut w = Window::build_from_path_no_symlink(read("/d", numbered(3))).unwrap();
    assert!(!w.move_selection(0));
    assert_eq!(w.selected, 0);
    assert!(!w.move_selection(-1));
    assert!(w.move_selection(1));
    assert_eq!(w.selected, 1);
    assert!(w.move_selection(-1));
    assert_eq!(w.selected, 0);
    let mut empty = Window::build_from_path_no_symlink(read("/d", Vec::new())).unwrap();
    assert!(!empty.move_selection(1));
    assert!(!empty.move_selection(-1));
    assert_eq!(empty.selected, 0);
}

#[test]
fn cycling_the_mode_sorts_at_once() {
    let mut w = Window::build_from_path_no_symlink(read("/d", vec![file("a"), dir("b"), file("C")])).unwrap();
    w.selected = 1;
    assert_eq!(names(&w), vec!["a", "b", "C"]);
    w.cycle_sort_mode();
    assert_eq!(w.sort_mode, SortMode::DirectoriesFirst);
    assert_eq!(names(&w), vec!["b", "a", "C"]);
    assert_eq!(w.selected, 1);
    w.cycle_sort_mode();
    assert_eq!(w.sort_mode, SortMode::Ungrouped);
    assert_eq!(names(&w), vec!["a", "b", "C"]);
    assert_eq!(w.selected, 1);
}

#[test]
fn visible_window_advances_by_the_overflow() {
    let mut w = Window::build_from_path_no_symlink(read("/d", numbered(10))).unwrap();
    w.selected = 7;
    w.scroll_y = 0;
    let v = w.visible_window(3);
    assert_eq!(v.scroll_offset, 5);
    assert_eq!((v.start, v.end), (5, 8));
    assert_eq!(w.scroll_y, 0);
}

#[test]
fn visible_window_retreats_to_the_cursor() {
    let mut w = Window::build_from_path_no_symlink(read("/d", numbered(10))).unwrap();
    w.selected = 2;
    w.scroll_y = 6;
    let v = w.visible_window(3);
    assert_eq!(v.scroll_offset, 2);
    assert_eq!((v.start, v.end), (2, 5));
}

#[test]
fn visible_window_stays_when_the_cursor_is_inside() {
    let mut w = Window::build_from_path_no_symlink(read("/d", numbered(10))).unwrap();
    w.selected = 5;
    w.scroll_y = 4;
    let v = w.visible_window(3);
    assert_eq!(v.scroll_offset, 4);
    assert_eq!((v.start, v.end), (4, 7));
    w.selected = 9;
    w.scroll_y = 8;
    let v = w.visible_window(5);
    assert_eq!(v.scroll_offset, 8);
    assert_eq!((v.start, v.end), (8, 10));
}

#[test]
fn visible_window_without_room_or_entries() {
    let mut w = Window::build_from_path_no_symlink(read("/d", numbered(4))).unwrap();
    w.selected = 2;
    let v = w.visible_window(0);
    assert_eq!(v.scroll_offset, 2);
    assert_eq!((v.start, v.end), (2, 2));
    let empty = Window::build_from_path_no_symlink(read("/d", Vec::new())).unwrap();
    let v = empty.visible_window(5);
    assert_eq!(v.scroll_offset, 0);
    assert_eq!((v.start, v.end), (0, 0));
    let v = w.visible_window(usize::MAX);
    assert_eq!(v.scroll_offset, 0);
    assert_eq!((v.start, v.end), (0, 4));
}

#[test]
fn position_of_finds_the_first() {
    let entries = vec![file("a"), file("b"), file("a")];
    assert_eq!(position_of(&entries, &"a".to_string()), Some(0));
    assert_eq!(position_of(&entries, &"b".to_string()), Some(1));
    assert_eq!(position_of(&entries, &"c".to_string()), None);
    assert_eq!(position_of(&Vec::new(), &"a".to_string()), None);
}

#[test]
fn descend_then_ascend_comes_back_to_the_directory() {
    let mut w = Window::build_from_path_no_symlink(read("/root", vec![dir("sub"), file("file.txt")])).unwrap();
    assert_eq!(names(&w), vec!["file.txt", "sub"]);
    while w.entries[w.selected].name != "sub" {
        assert!(w.move_down());
    }
    assert_eq!(w.descend_target(), Some("/root/sub".to_string()));
    assert_eq!(w.descend(read("/root/sub", Vec::new())), Ok(()));
    assert_eq!(w.path, "/root/sub");
    assert_eq!(w.current_dir_name(), "sub");
    assert_eq!(w.selected, 0);
    assert_eq!(w.ascend_target(), "/root/sub/..");
    assert_eq!(w.ascend(read("/root", vec![dir("sub"), file("file.txt")])), Ok(()));
    assert_eq!(w.current_dir_name(), "root");
    assert_eq!(w.path, "/root");
    assert_eq!(w.entries[w.selected].name, "sub");
}

#[test]
fn ascend_without_the_left_directory_keeps_the_index() {
    let mut w = Window::build_from_path_no_symlink(read("/root/gone", numbered(6))).unwrap();
    w.selected = 4;
    assert_eq!(w.ascend(read("/root", numbered(3))), Ok(()));
    assert_eq!(w.selected, 2);
    assert_eq!(w.current_dir_name(), "root");
    let mut w = Window::build_from_path_no_symlink(read("/root/gone", numbered(6))).unwrap();
    w.selected = 1;
    assert_eq!(w.ascend(read("/root", numbered(3))), Ok(()));
    assert_eq!(w.selected, 1);
}

#[test]
fn failed_ascend_and_descend_change_nothing() {
    let mut w = Window::build_from_path_no_symlink(read("/root", vec![dir("sub"), file("f")])).unwrap();
    w.selected = 1;
    assert_eq!(w.ascend(Err(IoError::PermissionDenied)), Err(IoError::PermissionDenied));
    assert_eq!(w.path, "/root");
    assert_eq!(w.selected, 1);
    assert_eq!(names(&w), vec!["f", "sub"]);
    assert_eq!(w.descend(Err(IoError::NotFound)), Err(IoError::NotFound));
    assert_eq!(w.path, "/root");
    assert_eq!(w.selected, 1);
    assert_eq!(names(&w), vec!["f", "sub"]);
}

#[test]
fn descend_needs_a_directory() {
    let mut w = Window::build_from_path_no_symlink(read("/root", vec![dir("sub"), file("f")])).unwrap();
    assert_eq!(w.entries[w.selected].name, "f");
    assert_eq!(w.descend_target(), None);
    assert_eq!(w.descend(read("/root/f", numbered(2))), Ok(()));
    assert_eq!(w.path, "/root");
    assert_eq!(names(&w), vec!["f", "sub"]);
    assert_eq!(w.descend(Err(IoError::NotADirectory)), Ok(()));
    let mut empty = Window::build_from_path_no_symlink(read("/root", Vec::new())).unwrap();
    assert_eq!(empty.descend_target(), None);
    assert_eq!(empty.descend(read("/x", numbered(2))), Ok(()));
    assert_eq!(empty.path, "/root");
}

#[test]
fn selected_absolute_path() {
    let mut w = Window::build_from_path_no_symlink(read("/root", vec![dir("sub"), file("f")])).unwrap();
    w.selected = 1;
    assert_eq!(w.current_selected_absolute_path(Ok("/real/root".to_string())), Ok("/real/root/sub".to_string()));
    assert_eq!(w.current_selected_absolute_path(Err(IoError::NotFound)), Err(IoError::NotFound));
    assert_eq!(w.current_selected_absolute_path(Err(IoError::Other)), Err(IoError::Other));
}

#[test]
fn clone_is_the_same_snapshot() {
    let mut w = Window::build_from_path_no_symlink(read("/root", vec![dir("sub"), file("f")])).unwrap();
    w.selected = 1;
    w.scroll_y = 1;
    w.set_sort_mode(SortMode::DirectoriesFirst);
    let c = w.clone();
    assert_eq!(c.path, w.path);
    assert_eq!(names(&c), names(&w));
    assert_eq!(c.selected, 1);
    assert_eq!(c.scroll_y, 1);
    assert_eq!(c.sort_mode, SortMode::DirectoriesFirst);
    assert_eq!(c.current_dir_name(), w.current_dir_name());
}
