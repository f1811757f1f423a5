use vstd::prelude::*;

verus! {

/// An entry of the file explorer: a file, or a folder with its children.
#[derive(Debug)]
pub struct FileNode {
    pub name: String,
    pub file_type: FileType,
    pub path: Option<String>,
    pub children: Option<Vec<FileNode>>,
    pub modified: bool,
}

#[derive(Debug, Clone, Copy, PartialEq, Eq, Structural)]
pub enum FileType {
    File,
    Folder,
}

/// A tab of the editor pane.
#[derive(Debug, Clone)]
pub struct EditorTab {
    pub id: String,
    pub name: String,
    pub path: Vec<String>,
    pub content: String,
    pub modified: bool,
    pub language: Option<String>,
}

/// A message of the assistant panel's conversation.
#[derive(Debug, Clone)]
pub struct Message {
    pub id: String,
    pub role: MessageRole,
    pub content: String,
    pub timestamp: String,
}

#[derive(Debug, Clone, Copy, PartialEq, Eq, Structural)]
pub enum MessageRole {
    User,
    Assistant,
    System,
}

/// The kind of a notification, which decides its colour.
#[derive(Debug, Clone, Copy, PartialEq, Eq, Structural)]
pub enum ToastType {
    Success,
    Error,
    Warning,
    Info,
}

/// A transient notification. `id` is unique within the queue that made it;
/// `duration`, when set, is how long the toast stays before it expires.
#[derive(Debug, Clone)]
pub struct Toast {
    pub id: String,
    pub toast_type: ToastType,
    pub message: String,
    pub duration: Option<u32>,
}

} // verus!
