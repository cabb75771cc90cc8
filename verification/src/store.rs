//! What is read from the local store, and when.

use crate::object::{Object, ObjectView};
use vstd::prelude::*;

verus! {

/// Which stored file a request starts from.
#[derive(Debug, Clone, Copy, PartialEq, Eq, Structural)]
pub enum LocalSource {
    /// The upstream payload.
    Base,
    /// The rendition for the requested width.
    Modified,
    /// Neither: nothing usable is stored.
    Nothing,
}

/// A stored file as it was read: its bytes, and its media type where one could be guessed.
#[derive(Debug)]
pub struct LocalFile {
    pub data: Vec<u8>,
    pub content_type: Option<String>,
}

/// What contracts say of a [`LocalFile`].
pub struct LocalFileView {
    pub data: Seq<u8>,
    pub content_type: Option<Seq<char>>,
}

impl View for LocalFile {
    type V = LocalFileView;

    open spec fn view(&self) -> LocalFileView {
        LocalFileView {
            data: self.data@,
            content_type: match self.content_type {
                None => None,
                Some(t) => Some(t@),
            },
        }
    }
}

/// The file that a request starts from: the payload where it is stored and no rendition is,
/// else the rendition where one is asked for and stored, else nothing.
pub open spec fn local_choice(base_exists: bool, modified_exists: bool, scale: u32)
    -> LocalSource {
    if base_exists && !modified_exists {
        LocalSource::Base
    } else if scale != 0 && modified_exists {
        LocalSource::Modified
    } else {
        LocalSource::Nothing
    }
}

/// The media type of a stored file: the guessed one, or that of unknown binary data where
/// guessing failed.
pub open spec fn local_type(guessed: Option<Seq<char>>) -> Seq<char> {
    match guessed {
        Some(t) => t,
        None => "application/octet-stream"@,
    }
}

/// The object after the local lookup. A file that was read gives its bytes and type and
/// counts as a response with status 200; without one the object has no bytes.
pub open spec fn opened(obj: ObjectView, found: Option<LocalFileView>) -> ObjectView {
    match found {
        Some(file) => ObjectView {
            data: file.data,
            content_type: local_type(file.content_type),
            status: Some(200u16),
            ..obj
        },
        None => ObjectView { data: Seq::empty(), ..obj },
    }
}

impl Object {
    /// Which stored file the request starts from: see [`local_choice`].
    pub fn local_source(&self, base_exists: bool, modified_exists: bool) -> (r: LocalSource)
        ensures
            r == local_choice(base_exists, modified_exists, self.scale),
    {
        if base_exists && !modified_exists {
            LocalSource::Base
        } else if self.scale != 0 && modified_exists {
            LocalSource::Modified
        } else {
            LocalSource::Nothing
        }
    }

    /// Takes in what the local lookup found: see [`opened`].
    pub fn try_open(&mut self, found: Option<LocalFile>)
        ensures
            final(self)@ == opened(
                old(self)@,
                match found {
                    Some(f) => Some(f@),
                    None => None,
                },
            ),
    {
        match found {
            Some(file) => {
                self.data = file.data;
                self.content_type = match file.content_type {
                    Some(t) => t,
                    None => "application/octet-stream".to_owned(),
                };
                self.status = Some(200);
            },
            None => {
                self.data = Vec::new();
            },
        }
    }
}

} // verus!
