//! The decisions of flint, a tool that flashes disk images to USB drives.
//!
//! Nothing here touches a file, a process or the screen. The parts that need those name what they
//! wait for and are told how it went: a flash job in [`flasher`], the search for drives in
//! [`devices`] and the search for the theme of the desktop in [`config`]. What holds of a job
//! whatever happens to it stands in [`laws`], and what becomes of the bytes in [`transfer`] and
//! [`verify_laws`]. The other modules of laws tell what each part does, in terms of what it is given
//! and with its words and numbers written out.
pub mod app;
pub mod archive;
pub mod config;
pub mod copy;
pub mod dd;
pub mod desktop_laws;
pub mod device_laws;
pub mod devices;
pub mod flash_laws;
pub mod flasher;
pub mod hashing;
pub mod icon;
pub mod job;
pub mod laws;
pub mod message;
pub mod progress;
pub mod text;
pub mod text_laws;
pub mod transfer;
pub mod verification;
pub mod verify_laws;
pub mod view_laws;
pub mod window_laws;
pub mod xz;
