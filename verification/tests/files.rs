use p2p_chat::errors::FileError;
use p2p_chat::file::File;

#[test]
fn file_test_create_file_success() {
    let test_data = b"Hello world";
    let name = "notes.txt";

    let result = File::from(Some(test_data.to_vec()), Some(name.as_bytes().to_vec())).unwrap();

    assert_eq!(result.name, name);
    assert_eq!(result.data, test_data);
}

#[test]
fn file_test_nonexistent_file() {
    // "/non/existent/path.txt" cannot be read; its last component is "path.txt".
    let result = File::from(None, Some(b"path.txt".to_vec()));
    assert!(matches!(result, Err(FileError::CouldntReadFile)));
}

#[test]
fn file_test_empty_filename() {
    // A directory cannot be read as a file.
    let result = File::from(None, Some(b"tmp".to_vec()));
    assert!(matches!(result, Err(FileError::CouldntReadFile)));
}

#[test]
fn file_test_invalid_encoding() {
    let invalid_bytes = vec![0x80, 0x81];
    let result = File::from(Some(Vec::new()), Some(invalid_bytes));
    assert!(matches!(result, Err(FileError::WrongEncoding)));
}

#[test]
fn file_without_a_name_is_unreadable() {
    let result = File::from(Some(b"abc".to_vec()), None);
    assert_eq!(result, Err(FileError::CouldntReadFile));
    let result = File::from(Some(b"abc".to_vec()), Some(Vec::new()));
    assert_eq!(result, Err(FileError::CouldntReadFile));
}

#[test]
fn file_read_failure_comes_before_the_name() {
    let result = File::from(None, Some(vec![0xff]));
    assert_eq!(result, Err(FileError::CouldntReadFile));
    let result = File::from(None, None);
    assert_eq!(result, Err(FileError::CouldntReadFile));
}

#[test]
fn file_name_may_be_any_utf8() {
    let name = "héllo wörld 🌍.txt";
    let file = File::from(Some(vec![1, 2, 3]), Some(name.as_bytes().to_vec())).unwrap();
    assert_eq!(file.name, name);
    assert_eq!(file.data, vec![1, 2, 3]);
}

#[test]
fn file_name_with_truncated_utf8_is_rejected() {
    // The first two bytes of a three-byte character.
    let result = File::from(Some(Vec::new()), Some(vec![b'a', 0xe2, 0x82]));
    assert_eq!(result, Err(FileError::WrongEncoding));
}

#[test]
fn file_error_texts() {
    assert_eq!(FileError::CouldntReadFile.to_string(), "Couldn't read file");
    assert_eq!(FileError::WrongEncoding.to_string(), "Filename is not in UTF-8");
}
