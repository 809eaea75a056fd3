//! A verified model of the OmniX kernel: text consoles, keyboard and mouse
//! decoding, PCI and ATA command sequences, the package format and the
//! desktop state machine. Every routine computes the values that the kernel
//! writes to memory or to I/O ports; the port and memory accesses themselves
//! are left to the caller.
pub mod port;
pub mod screen;
pub mod vga;
pub mod scancode;
pub mod kernel_console;
pub mod boot_console;
pub mod mem;
pub mod omxapk;
pub mod system_ui;
pub mod keyboard;
pub mod mouse;
pub mod rtc;
pub mod ata;
pub mod pci;
pub mod wm;
pub mod auth;
pub mod notifications;
pub mod settings;
pub mod apps;
