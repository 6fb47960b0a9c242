//! Typed client-side models for a family of D-Bus desktop services.
//!
//! The crate mirrors the method, property and signal surface of several
//! externally specified bus services (media players, BlueZ, NetworkManager,
//! UPower, GeoClue, the desktop portals) into plain data types.  Every
//! decision the bindings make — decoding dynamically typed wire values,
//! filtering bus names, mapping capability probes to optional results —
//! lives here as a verified function over plain values; the asynchronous
//! transport that produces those values stays outside the library.

pub mod bluez;
pub mod dates;
pub mod discovery;
pub mod duration;
pub mod fault;
pub mod geoclue2;
pub mod mpris2;
pub mod networkmanager;
pub mod portal;
pub mod text;
pub mod upower;
pub mod wire;
