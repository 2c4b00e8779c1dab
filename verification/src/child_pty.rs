//! The child process of a tab.
use crate::tab_manager::DEFAULT_SHELL;
use vstd::prelude::*;

verus! {

/// The bytes that are read from a child process at a time.
pub const PTY_BUFFER_SIZE: usize = 0x500;

/// What a child process sent.
#[derive(Clone, Debug, PartialEq, Eq)]
pub enum PtyUpdate {
    /// The PTY has closed the file.
    Exited,
    /// PTY sends byte.
    Byte(u8),
    Bytes([u8; PTY_BUFFER_SIZE]),
}

/// The size of a terminal, as its child process is told.
#[derive(Clone, Copy, PartialEq, Eq, Structural, Debug)]
pub struct Winsize {
    pub ws_row: u16,
    pub ws_col: u16,
    pub ws_xpixel: u16,
    pub ws_ypixel: u16,
}

impl Winsize {
    /// The size that the child process gets: the tab bar takes one row.
    pub fn below_tab_bar(&self) -> (r: Winsize)
        requires
            self.ws_row >= 1,
        ensures
            r == (Winsize { ws_row: (self.ws_row - 1) as u16, ..*self }),
    {
        Winsize {
            ws_row: self.ws_row - 1,
            ws_col: self.ws_col,
            ws_xpixel: self.ws_xpixel,
            ws_ypixel: self.ws_ypixel,
        }
    }
}

/// The variables that are set for a child process, from the user's name and home directory.
pub fn child_environment(name: &str, dir: &str) -> (r: Vec<(String, String)>)
    ensures
        r@.len() == 4,
        r@[0].0@ == "LOGNAME"@ && r@[0].1@ == name@,
        r@[1].0@ == "USER"@ && r@[1].1@ == name@,
        r@[2].0@ == "HOME"@ && r@[2].1@ == dir@,
        r@[3].0@ == "SHELL"@ && r@[3].1@ == DEFAULT_SHELL@,
{
    vec![
        ("LOGNAME".to_owned(), name.to_owned()),
        ("USER".to_owned(), name.to_owned()),
        ("HOME".to_owned(), dir.to_owned()),
        ("SHELL".to_owned(), DEFAULT_SHELL.to_owned()),
    ]
}

/// What follows on an attempt to read from a child process.
#[derive(Clone, Copy, PartialEq, Eq, Structural, Debug)]
pub enum ReadAction {
    /// Hand the whole buffer to the terminal.
    Feed,
    /// Report that the tab is closed, and stop reading.
    Close,
    /// Log the error and read again.
    Retry,
}

/// Bytes are fed to the terminal, the end of the file closes the tab, and an error is passed over.
pub fn after_read<E>(result: &Result<usize, E>) -> (r: ReadAction)
    ensures
        r == (match result {
            Ok(count) => if *count > 0 {
                ReadAction::Feed
            } else {
                ReadAction::Close
            },
            Err(_) => ReadAction::Retry,
        }),
{
    match result {
        Ok(rlen) => {
            if *rlen > 0 {
                ReadAction::Feed
            } else {
                ReadAction::Close
            }
        },
        Err(_) => ReadAction::Retry,
    }
}

} // verus!
