use cdw::translate::windows_to_wsl_path;

#[test]
fn bare_drive_gets_trailing_slash() {
    assert_eq!(windows_to_wsl_path("C:"), "/mnt/c/");
}

#[test]
fn full_path_is_mounted_and_slashed() {
    assert_eq!(windows_to_wsl_path("D:\\Users\\x"), "/mnt/d/Users/x");
}

#[test]
fn posix_path_passes_through() {
    assert_eq!(windows_to_wsl_path("/already/posix"), "/already/posix");
}

#[test]
fn single_letter_passes_through() {
    assert_eq!(windows_to_wsl_path("C"), "C");
}

#[test]
fn empty_input_stays_empty() {
    assert_eq!(windows_to_wsl_path(""), "");
}

#[test]
fn lowercase_drive_is_accepted() {
    assert_eq!(windows_to_wsl_path("c:\\temp"), "/mnt/c/temp");
}

#[test]
fn uppercase_drive_is_lowercased() {
    assert_eq!(windows_to_wsl_path("Z:\\a\\b\\c"), "/mnt/z/a/b/c");
}

#[test]
fn drive_without_backslash_passes_through() {
    assert_eq!(windows_to_wsl_path("C:x"), "C:x");
}

#[test]
fn relative_path_passes_through() {
    assert_eq!(windows_to_wsl_path("..\\up\\one"), "..\\up\\one");
}

#[test]
fn nondrive_translation_is_idempotent() {
    let once = windows_to_wsl_path("/already/posix");
    let twice = windows_to_wsl_path(&once);
    assert_eq!(once, twice);
}

#[test]
fn drive_translation_is_idempotent() {
    let once = windows_to_wsl_path("C:\\Users\\x");
    let twice = windows_to_wsl_path(&once);
    assert_eq!(once, "/mnt/c/Users/x");
    assert_eq!(once, twice);
}

#[test]
fn backslashes_in_remainder_all_flip() {
    assert_eq!(windows_to_wsl_path("a\\b"), "a\\b");
    assert_eq!(windows_to_wsl_path("C:\\a\\\\b\\"), "/mnt/c/a//b/");
}
