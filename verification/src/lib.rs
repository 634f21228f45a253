//! Decides whether the WebView2 runtime is installed or disabled on a Windows
//! host, and what the native dialogs of its setup look like and do.
//!
//! Nothing here touches the operating system. A probe names the next thing to
//! ask of the host, the caller asks it and hands the reply back, and the probe
//! moves on. The dialogs are planned and steered the same way.

pub mod criteria;
pub mod detection;
pub mod dialog;
pub mod host;
pub mod laws;
pub mod layout;
pub mod scan;

