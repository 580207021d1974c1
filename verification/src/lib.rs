//! Verified core of a C-callable windowing and webview binding layer.
//!
//! The native event loop, the windows and the webviews live outside this
//! library. What lives here is the discipline around them: which window
//! entries exist, which callback is registered in which slot, what is done
//! with each event, what is queued for the loop, and how an event is written
//! down for the host. The library makes no foreign call itself. It decides
//! which calls are to be made, the caller makes them, and where an answer
//! matters the caller hands it back.
//!
//! A handle is an `Option` of a reference: `None` stands for the null
//! pointer, and every function that takes a handle says what it does with
//! `None`. Foreign functions and user data are addresses, which are stored
//! and handed back and never looked behind.
//!
//! - [`app`]: the application, its windows and its event loop
//! - [`dispatch`]: queueing work for the loop's thread
//! - [`callbacks`], [`window`]: the callback slots of a window
//! - [`events`], [`json`]: events as JSON messages
//! - [`error`]: the last error message of a thread
//! - [`protocol`], [`webview`]: custom URL schemes and what a webview asks
//! - [`dialogs`], [`notifications`], [`shortcuts`], [`helpers`]: the
//!   decisions behind the smaller parts of the boundary
//! - [`string`]: texts as C strings
//! - [`bridge`]: the script that connects a page to the native side
//! - [`types`]: plain data

pub mod app;
pub mod bridge;
pub mod callbacks;
pub mod dialogs;
pub mod dispatch;
pub mod error;
pub mod events;
pub mod helpers;
pub mod json;
pub mod notifications;
pub mod protocol;
pub mod shortcuts;
pub mod string;
pub mod types;
pub mod webview;
pub mod window;
