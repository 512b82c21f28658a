//! File attachments.

use crate::errors::FileError;
use vstd::prelude::*;
use vstd::utf8::*;

verus! {

/// A file that travels with a message: its name and its contents.
#[derive(Debug, Clone, PartialEq, Eq)]
pub struct File {
    pub name: String,
    pub data: Vec<u8>,
}

/// What a `File` is, mathematically: a name and a sequence of bytes.
pub struct FileView {
    pub name: Seq<char>,
    pub data: Seq<u8>,
}

impl View for File {
    type V = FileView;

    open spec fn view(&self) -> FileView {
        FileView { name: self.name@, data: self.data@ }
    }
}

/// The bytes held, if any.
pub open spec fn bytes_view(bytes: Option<Vec<u8>>) -> Option<Seq<u8>> {
    match bytes {
        Some(bytes) => Some(bytes@),
        None => None,
    }
}

/// `String::from_utf8` of std: the bytes are accepted exactly when they are
/// valid UTF-8, and the string then consists of those very bytes.
#[verifier::external_body]
pub(crate) fn string_from_utf8(bytes: Vec<u8>) -> (r: Option<String>)
    ensures
        r is Some <==> valid_utf8(bytes@),
        r matches Some(s) ==> encode_utf8(s@) == bytes@,
{
    String::from_utf8(bytes).ok()
}

impl File {
    /// An attachment has a name.
    pub open spec fn well_formed(&self) -> bool {
        self.name@.len() > 0
    }

    /// What `from` returns, given the contents read (if reading worked) and
    /// the raw bytes of the path's last component (if it has one).
    pub open spec fn from_spec(contents: Option<Seq<u8>>, file_name: Option<Seq<u8>>) -> Result<
        FileView,
        FileError,
    > {
        if contents is None || file_name is None || file_name->0.len() == 0 {
            Err(FileError::CouldntReadFile)
        } else if !valid_utf8(file_name->0) {
            Err(FileError::WrongEncoding)
        } else {
            Ok(FileView { name: decode_utf8(file_name->0), data: contents->0 })
        }
    }

    /// Builds an attachment from what reading a path gave: `contents` is what
    /// was read, `None` if the path could not be read; `file_name` holds the
    /// bytes of the path's last component, `None` if it has none.
    ///
    /// An unreadable path or a missing name gives `CouldntReadFile`, a name
    /// that is not UTF-8 gives `WrongEncoding`.
    pub fn from(contents: Option<Vec<u8>>, file_name: Option<Vec<u8>>) -> (r: Result<File, FileError>)
        ensures
            r matches Ok(file) ==> File::from_spec(bytes_view(contents), bytes_view(file_name))
                == Ok::<FileView, FileError>(file@) && file.well_formed(),
            r matches Err(e) ==> File::from_spec(bytes_view(contents), bytes_view(file_name))
                == Err::<FileView, FileError>(e),
    {
        let data = match contents {
            Some(data) => data,
            None => return Err(FileError::CouldntReadFile),
        };
        let raw_name = match file_name {
            Some(raw_name) => raw_name,
            None => return Err(FileError::CouldntReadFile),
        };
        if raw_name.len() == 0 {
            return Err(FileError::CouldntReadFile);
        }
        match string_from_utf8(raw_name) {
            Some(name) => {
                proof {
                    encode_utf8_decode_utf8(name@);
                    assert(name@.len() > 0) by {
                        if name@.len() == 0 {
                            assert(encode_utf8(name@).len() == 0);
                        }
                    }
                }
                Ok(File { name, data })
            },
            None => Err(FileError::WrongEncoding),
        }
    }
}

} // verus!
