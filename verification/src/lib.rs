//! Verified core logic of a KVM-over-IP appliance server: wire formats,
//! security state machines, video packetisation and device configuration rules.

pub mod api;
pub mod application;
pub mod audio;
pub mod auth;
pub mod b64;
pub mod brute_force;
pub mod bytes_be;
pub mod capabilities;
pub mod capture;
pub mod cbor;
pub mod client;
pub mod clock;
pub mod config;
pub mod download;
pub mod edid;
pub mod edid_i2c;
pub mod hardware;
pub mod health;
pub mod hid;
pub mod input;
pub mod jiggler;
pub mod kvm;
pub mod media;
pub mod cose;
pub mod nal;
pub mod network;
pub mod passkey;
pub mod quality;
pub mod screen;
pub mod serial;
pub mod signaling;
pub mod secret;
pub mod storage;
pub mod strmap;
pub mod tailscale;
pub mod terminal;
pub mod text;
pub mod textscan;
pub mod transport;
pub mod url_safety;
pub mod vm;
pub mod webauthn;
pub mod webrtc;
pub mod ws_signaling;
