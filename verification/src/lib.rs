//! Ambient light for LG televisions: the decisions of a daemon that captures the
//! screen and sends its colours to Philips Hue, Nanoleaf and WLED lights.
//!
//! Everything here is plain computation with a proved contract. Sockets, the
//! display driver, files, the clock and floating-point colour arithmetic belong
//! to the program around it, which hands plain values in and carries out what
//! comes back. [`sync_loop`] gives the order of the work, [`daemon`] and
//! [`output`] decide its steps, and [`web`] answers the dashboard.
pub mod calibration;
pub mod capture;
pub mod cli;
pub mod color;
pub mod config;
pub mod daemon;
pub mod ddp;
pub mod dile;
pub mod frame;
pub mod output;
pub mod runtime;
pub mod sampler;
pub mod settings;
pub mod status;
pub mod sync_loop;
pub mod text;
pub mod video_info;
pub mod web;
