//! Uploaded images and where their files lie.

use vstd::prelude::*;
use vstd::string::*;
use crate::text::same_text;

verus! {

/// The kind of file that an image is stored as.
#[derive(Clone, Copy, PartialEq, Eq, Debug, Structural)]
pub enum FileExtension {
    JPG,
    PNG,
}

impl FileExtension {
    /// The extension as it is stored and as it ends a file's name.
    pub open spec fn label(self) -> Seq<char> {
        match self {
            FileExtension::JPG => "jpg"@,
            FileExtension::PNG => "png"@,
        }
    }

    /// The extension that a stored name stands for, if any.
    pub open spec fn parse(name: Seq<char>) -> Option<FileExtension> {
        if name == "jpg"@ {
            Some(FileExtension::JPG)
        } else if name == "png"@ {
            Some(FileExtension::PNG)
        } else {
            None
        }
    }

    /// The extension that a content type is stored under, if it is one that
    /// can be uploaded.
    pub open spec fn of_content_type(content_type: Seq<char>) -> Option<FileExtension> {
        if content_type == "image/jpeg"@ {
            Some(FileExtension::JPG)
        } else if content_type == "image/png"@ {
            Some(FileExtension::PNG)
        } else {
            None
        }
    }

    /// Reads an extension from its stored name: `"jpg"` or `"png"`.
    pub fn from_str(s: &str) -> (extension: Result<FileExtension, ()>)
        ensures
            extension == (match FileExtension::parse(s@) {
                Some(e) => Ok::<FileExtension, ()>(e),
                None => Err::<FileExtension, ()>(()),
            }),
    {
        if same_text(s, "jpg") {
            Ok(FileExtension::JPG)
        } else if same_text(s, "png") {
            Ok(FileExtension::PNG)
        } else {
            Err(())
        }
    }

    /// The stored name of the extension.
    pub fn to_string(&self) -> (name: String)
        ensures
            name@ == self.label(),
    {
        match self {
            FileExtension::JPG => "jpg".to_owned(),
            FileExtension::PNG => "png".to_owned(),
        }
    }
}

/// Every extension is read back from its own stored name.
pub proof fn lemma_extension_name_round_trip(extension: FileExtension)
    ensures
        FileExtension::parse(extension.label()) == Some(extension),
{
    reveal_strlit("jpg");
    reveal_strlit("png");
    assert("jpg"@[0] != "png"@[0]);
}

/// An image as the store holds it.
#[derive(Debug)]
pub struct Model {
    pub id: i32,
    /// The name that the uploader gave.
    pub file_name: String,
    /// The name of the file on disk, without its extension.
    pub path_name: String,
    pub extension: FileExtension,
}

/// The mathematical content of an image record.
pub struct ModelView {
    pub id: i32,
    pub file_name: Seq<char>,
    pub path_name: Seq<char>,
    pub extension: FileExtension,
}

impl View for Model {
    type V = ModelView;

    open spec fn view(&self) -> ModelView {
        ModelView {
            id: self.id,
            file_name: self.file_name@,
            path_name: self.path_name@,
            extension: self.extension,
        }
    }
}

} // verus!
