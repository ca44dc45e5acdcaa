use vstd::prelude::*;

verus! {

/// The wire format of the payloads of one queue. Producer and consumer of a
/// queue must agree on it: nothing in the stored bytes says which was used.
#[derive(Clone, Copy, Debug, PartialEq, Eq, Structural)]
pub enum Codec {
    /// Self-describing JSON text.
    Json,
    /// MessagePack, with structs written as maps keyed by field name.
    MsgPack,
}

impl Default for Codec {
    fn default() -> (r: Self)
        ensures
            r == Codec::Json,
    {
        Codec::Json
    }
}

/// Relies on `serde_json::to_vec`: the JSON text of `data`, or its error.
#[verifier::external_body]
fn json_encode<T: ?Sized + serde::Serialize>(data: &T) -> (r: Result<Vec<u8>, std::io::Error>) {
    serde_json::to_vec(data).map_err(|e| std::io::Error::new(std::io::ErrorKind::InvalidData, e))
}

/// Relies on `rmp_serde::to_vec_named`: MessagePack with structs as maps.
#[verifier::external_body]
fn msgpack_encode<T: ?Sized + serde::Serialize>(data: &T) -> (r: Result<Vec<u8>, std::io::Error>) {
    rmp_serde::to_vec_named(data).map_err(
        |e| std::io::Error::new(std::io::ErrorKind::InvalidData, e),
    )
}

/// Relies on `serde_json::from_slice`: a value read from JSON text, or its error.
#[verifier::external_body]
fn json_decode<T: serde::de::DeserializeOwned>(src: &[u8]) -> (r: Result<T, std::io::Error>) {
    serde_json::from_slice(src).map_err(|e| std::io::Error::new(std::io::ErrorKind::InvalidData, e))
}

/// Relies on `rmp_serde::from_slice`: a value read from MessagePack, or its error.
#[verifier::external_body]
fn msgpack_decode<T: serde::de::DeserializeOwned>(src: &[u8]) -> (r: Result<T, std::io::Error>) {
    rmp_serde::from_slice(src).map_err(|e| std::io::Error::new(std::io::ErrorKind::InvalidData, e))
}

impl Codec {
    /// Encodes `data` in this format. Fails when the value has no
    /// representation in it.
    pub fn serialize<T: ?Sized + serde::Serialize>(&self, data: &T) -> (r: Result<
        Vec<u8>,
        std::io::Error,
    >) {
        match self {
            Codec::Json => json_encode(data),
            Codec::MsgPack => msgpack_encode(data),
        }
    }

    /// Decodes a value of type `T` from `src`. Fails when the bytes are
    /// malformed, truncated, or do not describe a `T`.
    pub fn deserialize<T: serde::de::DeserializeOwned>(&self, src: &[u8]) -> (r: Result<
        T,
        std::io::Error,
    >) {
        match self {
            Codec::Json => json_decode(src),
            Codec::MsgPack => msgpack_decode(src),
        }
    }
}

} // verus!
