use fileserve::filename::file_name_of;

#[test]
fn test_final_segment_of_nested_path() {
    let name = file_name_of(&b"a/b/c/report.pdf".to_vec());
    assert_eq!(name, b"report.pdf".to_vec());
}

#[test]
fn test_absolute_path() {
    let name = file_name_of(&b"/tmp/hello.txt".to_vec());
    assert_eq!(name, b"hello.txt".to_vec());
}

#[test]
fn test_plain_name_without_separator() {
    let name = file_name_of(&b"hello".to_vec());
    assert_eq!(name, b"hello".to_vec());
}

#[test]
fn test_trailing_separator_gives_empty_name() {
    let name = file_name_of(&b"a/b/".to_vec());
    assert_eq!(name, b"".to_vec());
}

#[test]
fn test_empty_path() {
    let name = file_name_of(&b"".to_vec());
    assert_eq!(name, b"".to_vec());
}
