//! The small building blocks of the protocol: the header codec, the nonce
//! that correlates a command with its answer, and the search for the peer's
//! endpoint.

use vstd::prelude::*;
use vstd::string::*;

use crate::errors::DiscordRPCError;
use crate::json::{
    from_object, from_string, into_object, json_model, json_text, map_insert, render, take, Json,
};

verus! {

/// Length in bytes of a frame header.
pub const HEADER_LEN: usize = 8;

/// The four bytes of `x`, least significant first.
pub open spec fn le_bytes(x: u32) -> Seq<u8> {
    seq![
        (x % 256) as u8,
        ((x / 256) % 256) as u8,
        ((x / 65536) % 256) as u8,
        (x / 16777216) as u8,
    ]
}

/// The number whose little-endian digits, base 256, are the first four bytes
/// of `bytes`.
pub open spec fn le_value(bytes: Seq<u8>) -> int
    recommends
        bytes.len() >= 4,
{
    bytes[0] + 256 * bytes[1] + 65536 * bytes[2] + 16777216 * bytes[3]
}

/// The header that announces `length` payload bytes under `opcode`.
pub open spec fn header_bytes(opcode: u32, length: u32) -> Seq<u8> {
    le_bytes(opcode) + le_bytes(length)
}

/// The opcode field of a header.
pub open spec fn header_opcode(header: Seq<u8>) -> u32
    recommends
        header.len() >= 8,
{
    le_value(header.subrange(0, 4)) as u32
}

/// The length field of a header.
pub open spec fn header_length(header: Seq<u8>) -> u32
    recommends
        header.len() >= 8,
{
    le_value(header.subrange(4, 8)) as u32
}

/// Encoding a header and reading it back gives the two fields unchanged, for
/// every pair of 32-bit values.
pub proof fn lemma_header_round_trip(opcode: u32, length: u32)
    ensures
        header_bytes(opcode, length).len() == 8,
        header_opcode(header_bytes(opcode, length)) == opcode,
        header_length(header_bytes(opcode, length)) == length,
{
    let h = header_bytes(opcode, length);
    assert(h.subrange(0, 4) =~= le_bytes(opcode));
    assert(h.subrange(4, 8) =~= le_bytes(length));
    lemma_le_value_of_le_bytes(opcode);
    lemma_le_value_of_le_bytes(length);
}

/// Reading a header and encoding the two fields gives the eight bytes back:
/// together with the round trip above, headers and pairs of fields correspond
/// one to one.
pub proof fn lemma_header_bytes_of_fields(header: Seq<u8>)
    requires
        header.len() == 8,
    ensures
        header_bytes(header_opcode(header), header_length(header)) == header,
{
    lemma_le_bytes_of_le_value(header.subrange(0, 4));
    lemma_le_bytes_of_le_value(header.subrange(4, 8));
    assert(header_bytes(header_opcode(header), header_length(header)) =~= header);
}

proof fn lemma_le_value_of_le_bytes(x: u32)
    ensures
        le_value(le_bytes(x)) == x,
{
}

proof fn lemma_le_bytes_of_le_value(bytes: Seq<u8>)
    requires
        bytes.len() == 4,
    ensures
        0 <= le_value(bytes) <= u32::MAX,
        le_bytes(le_value(bytes) as u32) == bytes,
{
    let v = le_value(bytes);
    let low2 = bytes[0] + 256 * bytes[1];
    let low3 = low2 + 65536 * bytes[2];
    let high3 = bytes[1] + 256 * bytes[2] + 65536 * bytes[3];
    let high2 = bytes[2] + 256 * bytes[3];
    assert(v == bytes[0] + 256 * high3);
    assert(v % 256 == bytes[0] && v / 256 == high3);
    assert(high3 % 256 == bytes[1]);
    assert(v == low2 + 65536 * high2);
    assert(v / 65536 == high2);
    assert(high2 % 256 == bytes[2]);
    assert(v == low3 + 16777216 * bytes[3]);
    assert(v / 16777216 == bytes[3]);
    assert(le_bytes(v as u32) =~= bytes);
}

fn push_le(bytes: &mut Vec<u8>, x: u32)
    ensures
        final(bytes)@ == old(bytes)@ + le_bytes(x),
{
    bytes.push((x % 256) as u8);
    bytes.push(((x / 256) % 256) as u8);
    bytes.push(((x / 65536) % 256) as u8);
    bytes.push((x / 16777216) as u8);
    assert(bytes@ =~= old(bytes)@ + le_bytes(x));
}

pub(crate) fn read_le(data: &Vec<u8>, at: usize) -> (x: u32)
    requires
        at + 4 <= data.len(),
    ensures
        x == le_value(data@.subrange(at as int, at + 4)),
{
    let b0: u32 = data[at] as u32;
    let b1: u32 = data[at + 1] as u32;
    let b2: u32 = data[at + 2] as u32;
    let b3: u32 = data[at + 3] as u32;
    b0 + 256 * b1 + 65536 * b2 + 16777216 * b3
}

/// Encodes a frame header: `opcode`, then `data_len`, four little-endian
/// bytes each. The payload itself is not part of the result.
///
/// Never fails; the `Result` is kept so that callers can chain it with the
/// fallible steps around it.
pub fn pack(opcode: u32, data_len: u32) -> (header: Result<Vec<u8>, DiscordRPCError>)
    ensures
        header is Ok,
        header->Ok_0@ == header_bytes(opcode, data_len),
        header->Ok_0@.len() == 8,
{
    let mut bytes: Vec<u8> = Vec::new();
    push_le(&mut bytes, opcode);
    push_le(&mut bytes, data_len);
    Ok(bytes)
}

/// Decodes a frame header into `(opcode, length)`.
///
/// Succeeds exactly on inputs of eight bytes; anything shorter, and anything
/// longer, is a `MalformedHeader`.
pub fn unpack(data: Vec<u8>) -> (fields: Result<(u32, u32), DiscordRPCError>)
    ensures
        data@.len() == 8 ==> fields == Ok::<(u32, u32), DiscordRPCError>(
            (header_opcode(data@), header_length(data@)),
        ),
        data@.len() != 8 ==> fields == Err::<(u32, u32), DiscordRPCError>(
            DiscordRPCError::MalformedHeader,
        ),
        forall|opcode: u32, length: u32|
            data@ == header_bytes(opcode, length) ==> fields == Ok::<(u32, u32), DiscordRPCError>(
                (opcode, length),
            ),
{
    if data.len() != HEADER_LEN {
        return Err(DiscordRPCError::MalformedHeader);
    }
    let opcode = read_le(&data, 0);
    let length = read_le(&data, 4);
    proof {
        assert forall|o: u32, l: u32| data@ == header_bytes(o, l) implies o == opcode && l
            == length by {
            lemma_header_round_trip(o, l);
        }
    }
    Ok((opcode, length))
}

/// Whether `c` is a digit of lower-case hexadecimal.
pub open spec fn is_lower_hex(c: char) -> bool {
    ('0' <= c && c <= '9') || ('a' <= c && c <= 'f')
}

/// The shape of a nonce: 36 characters, hyphens after the 8th, 12th, 16th and
/// 20th digit, lower-case hexadecimal digits everywhere else.
pub open spec fn nonce_shaped(text: Seq<char>) -> bool {
    &&& text.len() == 36
    &&& forall|i: int|
        0 <= i < 36 ==> if i == 8 || i == 13 || i == 18 || i == 23 {
            #[trigger] text[i] == '-'
        } else {
            is_lower_hex(text[i])
        }
}

/// A fresh nonce: a random version-4 UUID from `uuid::Uuid::new_v4`, in the
/// hyphenated lower-case form that its `to_string` gives.
///
/// The value is drawn from the operating system's random numbers, so nothing
/// is promised of it but its shape. The call aborts if the system can supply
/// no random bytes.
#[verifier::external_body]
pub fn nonce() -> (text: String)
    ensures
        nonce_shaped(text@),
{
    uuid::Uuid::new_v4().to_string()
}

/// The document `payload` with the member `nonce` set to the given text and
/// every other member as it was.
pub open spec fn with_nonce(payload: Json, nonce: Seq<char>) -> Json {
    Json::Object(payload.members().insert("nonce"@, Json::String(nonce)))
}

/// Adds `nonce` to a payload and prints the result.
///
/// - If `value` holds an object, the object gains the member `nonce` (in
///   place of one it may have had), nothing else changes, and the compact
///   text of the new object is returned.
/// - If it holds anything else it is left as it was, and the result is
///   `PayloadNotObject`.
pub fn insert_nonce(value: &mut serde_json::Value, nonce: String) -> (text: Result<
    String,
    DiscordRPCError,
>)
    ensures
        json_model(*old(value)) is Object ==> {
            &&& json_model(*final(value)) == with_nonce(json_model(*old(value)), nonce@)
            &&& text is Ok
            &&& text->Ok_0@ == json_text(json_model(*final(value)))
        },
        !(json_model(*old(value)) is Object) ==> {
            &&& json_model(*final(value)) == json_model(*old(value))
            &&& text == Err::<String, DiscordRPCError>(DiscordRPCError::PayloadNotObject)
        },
{
    let taken = take(value);
    match into_object(taken) {
        Ok(members) => {
            let mut members = members;
            let _ = map_insert(&mut members, String::from_str("nonce"), from_string(nonce));
            *value = from_object(members);
            Ok(render(value))
        },
        Err(other) => {
            *value = other;
            Err(DiscordRPCError::PayloadNotObject)
        },
    }
}

/// Adds a fresh nonce to a payload and prints the result.
///
/// Behaves as [`insert_nonce`] does with a nonce from [`nonce`]: on an
/// object, the only change is the new member `nonce`, a string of the shape
/// of a nonce; anything else is left alone and reported as
/// `PayloadNotObject`.
pub fn create_json(value: &mut serde_json::Value) -> (text: Result<String, DiscordRPCError>)
    ensures
        json_model(*old(value)) is Object ==> {
            &&& exists|fresh: Seq<char>|
                nonce_shaped(fresh) && json_model(*final(value)) == #[trigger] with_nonce(
                    json_model(*old(value)),
                    fresh,
                )
            &&& text is Ok
            &&& text->Ok_0@ == json_text(json_model(*final(value)))
        },
        !(json_model(*old(value)) is Object) ==> {
            &&& json_model(*final(value)) == json_model(*old(value))
            &&& text == Err::<String, DiscordRPCError>(DiscordRPCError::PayloadNotObject)
        },
{
    let uuid = nonce();
    let ghost fresh = uuid@;
    let text = insert_nonce(value, uuid);
    proof {
        if json_model(*old(value)) is Object {
            assert(json_model(*value) == with_nonce(json_model(*old(value)), fresh));
        }
    }
    text
}

/// The two families of platforms, which keep the endpoint in different
/// places.
#[derive(Debug, Clone, Copy, PartialEq, Eq, Structural)]
pub enum Platform {
    /// The endpoint is a socket file in the temporary directory.
    Unix,
    /// The endpoint is a named pipe in the pipe namespace.
    Windows,
}

/// How many candidate endpoints are probed: the indices 0 to 9.
pub const PIPE_CANDIDATES: usize = 10;

/// The names of the environment variables that may hold the temporary
/// directory, in the order in which they are consulted.
pub fn env_keys() -> (keys: Vec<&'static str>)
    ensures
        keys@.len() == 4,
        keys@[0]@ == "XDG_RUNTIME_DIR"@,
        keys@[1]@ == "TMPDIR"@,
        keys@[2]@ == "TMP"@,
        keys@[3]@ == "TEMP"@,
{
    let mut keys: Vec<&'static str> = Vec::new();
    keys.push("XDG_RUNTIME_DIR");
    keys.push("TMPDIR");
    keys.push("TMP");
    keys.push("TEMP");
    keys
}

/// Whether `values[i]` is the first value that is present.
pub open spec fn first_present(values: Seq<Option<String>>, i: int) -> bool {
    &&& 0 <= i < values.len()
    &&& values[i] is Some
    &&& forall|j: int| 0 <= j < i ==> values[j] is None
}

/// At most one value is the first that is present, so the two cases of
/// [`temp_directory`] never disagree; and one of them always applies.
pub proof fn lemma_first_present_decides(values: Seq<Option<String>>)
    ensures
        forall|i: int, j: int| first_present(values, i) && first_present(values, j) ==> i == j,
        (exists|i: int| first_present(values, i)) <==> !(forall|i: int|
            0 <= i < values.len() ==> (#[trigger] values[i]) is None),
{
    assert forall|i: int, j: int| first_present(values, i) && first_present(values, j) implies i
        == j by {
        if i < j {
            assert(values[i] is None);
        }
        if j < i {
            assert(values[j] is None);
        }
    }
    if exists|k: int| 0 <= k < values.len() && (#[trigger] values[k]) is Some {
        let k = choose|k: int| 0 <= k < values.len() && (#[trigger] values[k]) is Some;
        lemma_least_present(values, k);
    }
}

proof fn lemma_least_present(values: Seq<Option<String>>, k: int)
    requires
        0 <= k < values.len(),
        values[k] is Some,
    ensures
        exists|i: int| first_present(values, i),
    decreases k,
{
    if exists|j: int| 0 <= j < k && (#[trigger] values[j]) is Some {
        let j = choose|j: int| 0 <= j < k && (#[trigger] values[j]) is Some;
        lemma_least_present(values, j);
    } else {
        assert(first_present(values, k));
    }
}

/// The temporary directory on a Unix system, given the values of the
/// variables of [`env_keys`] in that order (`None` for one that is not set):
/// the first value that is present, and the empty path if none is.
pub fn temp_directory(values: &Vec<Option<String>>) -> (path: String)
    ensures
        forall|i: int| first_present(values@, i) ==> path@ == values@[i]->Some_0@,
        (forall|i: int| 0 <= i < values@.len() ==> values@[i] is None) ==> path@ == Seq::<
            char,
        >::empty(),
{
    let mut i: usize = 0;
    while i < values.len()
        invariant
            i <= values.len(),
            forall|j: int| 0 <= j < i ==> values@[j] is None,
        decreases values.len() - i,
    {
        match &values[i] {
            Some(value) => {
                return value.clone();
            },
            None => {},
        }
        i += 1;
    }
    String::new()
}

/// The decimal digit for an index from 0 to 9.
pub open spec fn digit_text(index: int) -> Seq<char>
    recommends
        0 <= index < 10,
{
    if index == 0 {
        "0"@
    } else if index == 1 {
        "1"@
    } else if index == 2 {
        "2"@
    } else if index == 3 {
        "3"@
    } else if index == 4 {
        "4"@
    } else if index == 5 {
        "5"@
    } else if index == 6 {
        "6"@
    } else if index == 7 {
        "7"@
    } else if index == 8 {
        "8"@
    } else {
        "9"@
    }
}

/// The file name of the candidate endpoint with the given index.
pub open spec fn pipe_name(index: int) -> Seq<char>
    recommends
        0 <= index < 10,
{
    "discord-ipc-"@ + digit_text(index)
}

/// `name` inside the directory `base`: a separator stands between the two
/// unless `base` is empty or already ends in one.
pub open spec fn joined(base: Seq<char>, name: Seq<char>) -> Seq<char> {
    if base.len() == 0 || base.last() == '/' {
        base + name
    } else {
        base + "/"@ + name
    }
}

/// The path of the candidate endpoint with the given index: in the
/// temporary directory on Unix, in the pipe namespace on Windows.
pub open spec fn pipe_path(platform: Platform, temp_dir: Seq<char>, index: int) -> Seq<char>
    recommends
        0 <= index < 10,
{
    match platform {
        Platform::Unix => joined(temp_dir, pipe_name(index)),
        Platform::Windows => "\\\\?\\pipe\\"@ + pipe_name(index),
    }
}

fn digit_str(index: usize) -> (text: &'static str)
    requires
        index < 10,
    ensures
        text@ == digit_text(index as int),
{
    if index == 0 {
        "0"
    } else if index == 1 {
        "1"
    } else if index == 2 {
        "2"
    } else if index == 3 {
        "3"
    } else if index == 4 {
        "4"
    } else if index == 5 {
        "5"
    } else if index == 6 {
        "6"
    } else if index == 7 {
        "7"
    } else if index == 8 {
        "8"
    } else {
        "9"
    }
}

fn pipe_candidate(platform: Platform, temp_dir: &str, index: usize) -> (path: String)
    requires
        index < 10,
    ensures
        path@ == pipe_path(platform, temp_dir@, index as int),
{
    let mut path = match platform {
        Platform::Unix => {
            let mut base = String::from_str(temp_dir);
            let len = temp_dir.unicode_len();
            if len != 0 && temp_dir.get_char(len - 1) != '/' {
                base.append("/");
            }
            base
        },
        Platform::Windows => String::from_str("\\\\?\\pipe\\"),
    };
    path.append("discord-ipc-");
    path.append(digit_str(index));
    assert(path@ =~= pipe_path(platform, temp_dir@, index as int));
    path
}

/// The ten candidate endpoints, in the order in which they are to be probed.
pub fn pipe_candidates(platform: Platform, temp_dir: &str) -> (paths: Vec<String>)
    ensures
        paths@.len() == 10,
        forall|i: int| 0 <= i < 10 ==> (#[trigger] paths@[i])@ == pipe_path(platform, temp_dir@, i),
{
    let mut paths: Vec<String> = Vec::new();
    let mut i: usize = 0;
    while i < PIPE_CANDIDATES
        invariant
            i <= 10,
            paths@.len() == i,
            forall|k: int|
                0 <= k < i ==> (#[trigger] paths@[k])@ == pipe_path(platform, temp_dir@, k),
        decreases 10 - i,
    {
        paths.push(pipe_candidate(platform, temp_dir, i));
        i += 1;
    }
    paths
}

/// Whether index `i` is the first candidate that was found to exist.
/// Only the first ten entries of `exists` count.
pub open spec fn first_existing(exists: Seq<bool>, i: int) -> bool {
    &&& 0 <= i < 10
    &&& i < exists.len()
    &&& exists[i]
    &&& forall|j: int| 0 <= j < i ==> !exists[j]
}

/// The answer of the locator is a function of what exists: at most one
/// index is the first that exists, so the same state of the file system
/// always gives the same endpoint; and either some index is the first, or
/// none of the ten candidates exists.
pub proof fn lemma_locator_decides(exists: Seq<bool>)
    ensures
        forall|i: int, j: int| first_existing(exists, i) && first_existing(exists, j) ==> i == j,
        (exists|i: int| first_existing(exists, i)) <==> !(forall|i: int|
            0 <= i < 10 && i < exists.len() ==> !(#[trigger] exists[i])),
{
    assert forall|i: int, j: int| first_existing(exists, i) && first_existing(exists, j) implies i
        == j by {
        if i < j {
            assert(!exists[i]);
        }
        if j < i {
            assert(!exists[j]);
        }
    }
    if exists|k: int| 0 <= k < 10 && k < exists.len() && (#[trigger] exists[k]) {
        let k = choose|k: int| 0 <= k < 10 && k < exists.len() && (#[trigger] exists[k]);
        lemma_least_existing(exists, k);
    }
}

proof fn lemma_least_existing(exists: Seq<bool>, k: int)
    requires
        0 <= k < 10,
        k < exists.len(),
        exists[k],
    ensures
        exists|i: int| first_existing(exists, i),
    decreases k,
{
    if exists|j: int| 0 <= j < k && (#[trigger] exists[j]) {
        let j = choose|j: int| 0 <= j < k && (#[trigger] exists[j]);
        lemma_least_existing(exists, j);
    } else {
        assert(first_existing(exists, k));
    }
}

/// Picks the endpoint: the first candidate, in the order of the indices 0 to
/// 9, that exists.
///
/// `exists[i]` says whether the path `pipe_candidates(..)[i]` was found on
/// the file system; an entry that is missing counts as not found. If no
/// candidate exists the result is `EndpointNotFound`, an error that the
/// caller can handle.
pub fn get_pipe_pattern(platform: Platform, temp_dir: &str, exists: &Vec<bool>) -> (path: Result<
    String,
    DiscordRPCError,
>)
    ensures
        forall|i: int|
            first_existing(exists@, i) ==> path is Ok && path->Ok_0@ == pipe_path(
                platform,
                temp_dir@,
                i,
            ),
        (forall|i: int| 0 <= i < 10 && i < exists@.len() ==> !exists@[i]) ==> path == Err::<
            String,
            DiscordRPCError,
        >(DiscordRPCError::EndpointNotFound),
{
    let mut i: usize = 0;
    while i < PIPE_CANDIDATES && i < exists.len()
        invariant
            i <= 10,
            i <= exists.len(),
            forall|j: int| 0 <= j < i ==> !exists@[j],
        decreases 10 - i,
    {
        if exists[i] {
            return Ok(pipe_candidate(platform, temp_dir, i));
        }
        i += 1;
    }
    Err(DiscordRPCError::EndpointNotFound)
}

} // verus!
