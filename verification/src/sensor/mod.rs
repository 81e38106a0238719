pub mod iokit;
