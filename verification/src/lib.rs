//! Remote control of microphone recording for the AviUtl2 editor.
//!
//! A plugin of the editor serves a named pipe. A command line client sends it
//! `start:<path>` or `stop` and gets `ok`, `noop:<reason>` or `err:<reason>` back. This
//! library holds everything that the two decide; devices, files, the clock and the
//! pipe itself belong to the caller, who carries out the steps that the library asks
//! for and reports what came of them.
//!
//! On the plugin's side, [`server`] leads through the phases of the pipe server and its
//! shutdown, [`message`] puts messages together and [`command`] carries them out on a
//! [`recorder`]; [`samples`] decides about the blocks of sound that a stream delivers,
//! and [`timeline_inserter`] finds a free place for a recording.
//!
//! On the client's side, [`session`] leads from the arguments to the exit code. It
//! rests on [`cli`] for the wording, on [`output_path`] and [`naming`] for the path of a
//! recording, on [`shared_config`] for the settings and on [`client`] for the pipe.
//!
//! Both use [`text`], [`encoding`], [`paths`] and [`win32`].

pub mod cli;
pub mod client;
pub mod command;
pub mod encoding;
pub mod message;
pub mod naming;
pub mod output_path;
pub mod paths;
pub mod recorder;
pub mod samples;
pub mod server;
pub mod session;
pub mod shared_config;
pub mod text;
pub mod timeline_inserter;
pub mod win32;
