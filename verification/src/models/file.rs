//! Uploaded file attachments and their metadata.

use vstd::prelude::*;

verus! {

/// Media-specific metadata attached to an uploaded file.
#[derive(Debug, Clone, Copy, PartialEq)]
pub enum FileMetadata {
    File,
    Text,
    Image { width: i32, height: i32 },
    Video { width: i32, height: i32 },
    Audio,
}

/// A file stored by the remote service's content host.
#[derive(Debug, PartialEq)]
pub struct File {
    pub id: String,
    pub tag: String,
    pub filename: String,
    pub metadata: FileMetadata,
    pub content_type: String,
    pub size: i32,
    pub deleted: bool,
    pub reported: bool,
    pub message_id: Option<String>,
    pub user_id: Option<String>,
    pub server_id: Option<String>,
    pub object_id: Option<String>,
}

/// The mathematical value of a [`File`]: every string is a character
/// sequence, everything else is carried as-is.
pub struct FileView {
    pub id: Seq<char>,
    pub tag: Seq<char>,
    pub filename: Seq<char>,
    pub metadata: FileMetadata,
    pub content_type: Seq<char>,
    pub size: i32,
    pub deleted: bool,
    pub reported: bool,
    pub message_id: Option<Seq<char>>,
    pub user_id: Option<Seq<char>>,
    pub server_id: Option<Seq<char>>,
    pub object_id: Option<Seq<char>>,
}

impl View for File {
    type V = FileView;

    open spec fn view(&self) -> FileView {
        FileView {
            id: self.id@,
            tag: self.tag@,
            filename: self.filename@,
            metadata: self.metadata,
            content_type: self.content_type@,
            size: self.size,
            deleted: self.deleted,
            reported: self.reported,
            message_id: self.message_id.deep_view(),
            user_id: self.user_id.deep_view(),
            server_id: self.server_id.deep_view(),
            object_id: self.object_id.deep_view(),
        }
    }
}

impl DeepView for File {
    type V = FileView;

    open spec fn deep_view(&self) -> FileView {
        self.view()
    }
}

impl Clone for File {
    fn clone(&self) -> (res: Self)
        ensures
            res@ == self@,
    {
        File {
            id: self.id.clone(),
            tag: self.tag.clone(),
            filename: self.filename.clone(),
            metadata: self.metadata,
            content_type: self.content_type.clone(),
            size: self.size,
            deleted: self.deleted,
            reported: self.reported,
            message_id: self.message_id.clone(),
            user_id: self.user_id.clone(),
            server_id: self.server_id.clone(),
            object_id: self.object_id.clone(),
        }
    }
}

} // verus!
