//! The client handle, and what the engine's answers to the module-level queries
//! and to some commands become.
use vstd::prelude::*;
use crate::call::NtgError;
use crate::records::{ntg_media_devices_struct, ntg_protocol_struct};
use crate::text::{c_text, text_or_spec, utf8_lossy};

verus! {

/// A call client: the engine instance that serves it and the peer (user or chat)
/// that its commands address.
#[derive(Clone, Copy, Debug)]
pub struct TgcallsClient {
    client_handle: usize,
    peer_id: i64,
}

impl TgcallsClient {
    /// The engine instance (0 where the engine gave none).
    pub closed spec fn handle(self) -> usize {
        self.client_handle
    }

    /// The peer that the client's commands address.
    pub closed spec fn peer(self) -> i64 {
        self.peer_id
    }

    /// A client for `peer_id`, served by the engine instance `client_handle`.
    pub fn with_handle(client_handle: usize, peer_id: i64) -> (r: Self)
        ensures
            r.handle() == client_handle,
            r.peer() == peer_id,
    {
        TgcallsClient { client_handle, peer_id }
    }

    /// The engine instance that serves the client.
    pub fn get_handle(&self) -> (h: usize)
        ensures
            h == self.handle(),
    {
        self.client_handle
    }

    /// The peer that the client's commands address.
    pub fn peer_id(&self) -> (p: i64)
        ensures
            p == self.peer(),
    {
        self.peer_id
    }

    /// Whether dropping the client must destroy its engine instance: only a real
    /// (non-zero) instance is destroyed.
    pub fn needs_destroy(&self) -> (b: bool)
        ensures
            b == (self.handle() != 0),
    {
        self.client_handle != 0
    }
}

/// The protocol description, where the engine's query succeeded (code 0).
pub fn protocol_result(code: i32, protocol: ntg_protocol_struct) -> (r: Result<ntg_protocol_struct, NtgError>)
    ensures
        code == 0 ==> r == Ok::<ntg_protocol_struct, NtgError>(protocol),
        code != 0 ==> r == Err::<ntg_protocol_struct, NtgError>(NtgError::ProtocolUnavailable { code }),
{
    if code != 0 {
        Err(NtgError::ProtocolUnavailable { code })
    } else {
        Ok(protocol)
    }
}

/// The device listing, where the engine's query succeeded (code 0).
pub fn devices_result(code: i32, devices: ntg_media_devices_struct) -> (r: Result<ntg_media_devices_struct, NtgError>)
    ensures
        code == 0 ==> r == Ok::<ntg_media_devices_struct, NtgError>(devices),
        code != 0 ==> r == Err::<ntg_media_devices_struct, NtgError>(NtgError::DevicesUnavailable { code }),
{
    if code != 0 {
        Err(NtgError::DevicesUnavailable { code })
    } else {
        Ok(devices)
    }
}

/// The engine's version text: available when the query succeeded (code 0) and
/// gave a string (`text` holds its bytes, `None` for a null pointer).
pub fn version_result(code: i32, text: &Option<Vec<u8>>) -> (r: Result<String, NtgError>)
    ensures
        (code != 0 || text is None) ==> r matches Err(NtgError::VersionUnavailable),
        code == 0 ==> (text matches Some(b) ==> (r matches Ok(s) && s@ == utf8_lossy(b@))),
{
    if code != 0 {
        return Err(NtgError::VersionUnavailable);
    }
    match text {
        Some(_) => Ok(c_text(text)),
        None => Err(NtgError::VersionUnavailable),
    }
}

/// The parameters of a new presentation: one text where the engine gave a string
/// (`out` holds its bytes), none where it gave a null pointer.
pub fn presentation_result(out: &Option<Vec<u8>>) -> (r: Vec<String>)
    ensures
        out is None ==> r.len() == 0,
        out matches Some(b) ==> (r.len() == 1 && r[0]@ == utf8_lossy(b@)),
{
    let mut r: Vec<String> = Vec::new();
    match out {
        Some(_) => {
            let t = c_text(out);
            r.push(t);
        },
        None => {},
    }
    r
}

/// The parameters of a new call: the engine's string (`out` holds its bytes), or
/// empty where it gave a null pointer, as for a private call, which gives none.
pub fn create_result(out: &Option<Vec<u8>>) -> (r: String)
    ensures
        r@ == text_or_spec(match out { Some(b) => Some(b@), None => None }, Seq::empty()),
        out is None ==> r@.len() == 0,
        out matches Some(b) ==> r@ == utf8_lossy(b@),
{
    c_text(out)
}

} // verus!
