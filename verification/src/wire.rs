//! The wire value trees the catalog can produce, and their byte encoding
//! through the teehistorian codec.
//!
//! The codec itself is an external collaborator: each encoding call goes
//! through a trusted wrapper whose contract names the resulting bytes with
//! [`wire_bytes`], a function of the wire form alone. Everything around the
//! calls — validity, when success is owed, determinism — is verified.

use vstd::prelude::*;
use crate::errors::EncodeError;

verus! {

/// A wire value tree: one variant per wire record shape the catalog uses,
/// holding plain, wire-ready field values.
pub enum WireChunk {
    PlayerDiff { cid: i32, dx: i32, dy: i32 },
    Eos,
    TickSkip { dt: i32 },
    PlayerNew { cid: i32, x: i32, y: i32 },
    PlayerOld { cid: i32 },
    InputDiff { cid: i32, dinput: Vec<i32> },
    InputNew { cid: i32, input: Vec<i32> },
    NetMessage { cid: i32, msg: Vec<u8> },
    Join { cid: i32 },
    Drop { cid: i32, reason: Vec<u8> },
    ConsoleCommand { cid: i32, flags: i32, cmd: Vec<u8>, args: Vec<Vec<u8>> },
    UnknownEx { uuid: u128, data: Vec<u8> },
    AuthLogin { cid: i32, level: i32, auth_name: Vec<u8> },
    JoinVer6 { cid: i32 },
    TeamLoadSuccess { team: i32, save_id: u128, save: Vec<u8> },
    TeamLoadFailure { team: i32 },
    Antibot { data: Vec<u8> },
    PlayerName { cid: i32, name: Vec<u8> },
    DdnetVersion { cid: i32, connection_id: u128, version: i32, version_str: Vec<u8> },
}

/// Mathematical view of a [`WireChunk`].
pub enum WireForm {
    PlayerDiff { cid: i32, dx: i32, dy: i32 },
    Eos,
    TickSkip { dt: i32 },
    PlayerNew { cid: i32, x: i32, y: i32 },
    PlayerOld { cid: i32 },
    InputDiff { cid: i32, dinput: Seq<i32> },
    InputNew { cid: i32, input: Seq<i32> },
    NetMessage { cid: i32, msg: Seq<u8> },
    Join { cid: i32 },
    Drop { cid: i32, reason: Seq<u8> },
    ConsoleCommand { cid: i32, flags: i32, cmd: Seq<u8>, args: Seq<Seq<u8>> },
    UnknownEx { uuid: u128, data: Seq<u8> },
    AuthLogin { cid: i32, level: i32, auth_name: Seq<u8> },
    JoinVer6 { cid: i32 },
    TeamLoadSuccess { team: i32, save_id: u128, save: Seq<u8> },
    TeamLoadFailure { team: i32 },
    Antibot { data: Seq<u8> },
    PlayerName { cid: i32, name: Seq<u8> },
    DdnetVersion { cid: i32, connection_id: u128, version: i32, version_str: Seq<u8> },
}

impl View for WireChunk {
    type V = WireForm;

    open spec fn view(&self) -> WireForm {
        match self {
            WireChunk::PlayerDiff { cid, dx, dy } => WireForm::PlayerDiff {
                cid: *cid,
                dx: *dx,
                dy: *dy,
            },
            WireChunk::Eos => WireForm::Eos,
            WireChunk::TickSkip { dt } => WireForm::TickSkip { dt: *dt },
            WireChunk::PlayerNew { cid, x, y } => WireForm::PlayerNew {
                cid: *cid,
                x: *x,
                y: *y,
            },
            WireChunk::PlayerOld { cid } => WireForm::PlayerOld { cid: *cid },
            WireChunk::InputDiff { cid, dinput } => WireForm::InputDiff {
                cid: *cid,
                dinput: dinput@,
            },
            WireChunk::InputNew { cid, input } => WireForm::InputNew {
                cid: *cid,
                input: input@,
            },
            WireChunk::NetMessage { cid, msg } => WireForm::NetMessage { cid: *cid, msg: msg@ },
            WireChunk::Join { cid } => WireForm::Join { cid: *cid },
            WireChunk::Drop { cid, reason } => WireForm::Drop { cid: *cid, reason: reason@ },
            WireChunk::ConsoleCommand { cid, flags, cmd, args } => WireForm::ConsoleCommand {
                cid: *cid,
                flags: *flags,
                cmd: cmd@,
                args: args.deep_view(),
            },
            WireChunk::UnknownEx { uuid, data } => WireForm::UnknownEx {
                uuid: *uuid,
                data: data@,
            },
            WireChunk::AuthLogin { cid, level, auth_name } => WireForm::AuthLogin {
                cid: *cid,
                level: *level,
                auth_name: auth_name@,
            },
            WireChunk::JoinVer6 { cid } => WireForm::JoinVer6 { cid: *cid },
            WireChunk::TeamLoadSuccess { team, save_id, save } => WireForm::TeamLoadSuccess {
                team: *team,
                save_id: *save_id,
                save: save@,
            },
            WireChunk::TeamLoadFailure { team } => WireForm::TeamLoadFailure { team: *team },
            WireChunk::Antibot { data } => WireForm::Antibot { data: data@ },
            WireChunk::PlayerName { cid, name } => WireForm::PlayerName {
                cid: *cid,
                name: name@,
            },
            WireChunk::DdnetVersion { cid, connection_id, version, version_str } => {
                WireForm::DdnetVersion {
                    cid: *cid,
                    connection_id: *connection_id,
                    version: *version,
                    version_str: version_str@,
                }
            },
        }
    }
}

impl WireChunk {
    /// Structural well-formedness: player input records carry exactly the
    /// ten integers the wire layout reserves for them.
    pub open spec fn wf(&self) -> bool {
        match self {
            WireChunk::InputDiff { dinput, .. } => dinput@.len() == 10,
            WireChunk::InputNew { input, .. } => input@.len() == 10,
            _ => true,
        }
    }
}

impl WireForm {
    /// The codec accepts this form: the client id of a position diff is
    /// non-negative, and the payload of an extension record fits the codec's
    /// bounded scratch buffer (2048 bytes for small extensions, 65536 for
    /// team saves; variable-width integers take at most 5 bytes each, byte
    /// strings their length plus a terminator).
    pub open spec fn fits(self) -> bool {
        match self {
            WireForm::PlayerDiff { cid, .. } => cid >= 0,
            WireForm::AuthLogin { auth_name, .. } => auth_name.len() <= 2037,
            WireForm::DdnetVersion { version_str, .. } => version_str.len() <= 2021,
            WireForm::TeamLoadSuccess { save, .. } => save.len() <= 65514,
            WireForm::Antibot { data } => data.len() <= 2048,
            WireForm::PlayerName { name, .. } => name.len() <= 2042,
            _ => true,
        }
    }
}

/// The byte encoding the teehistorian codec produces for a wire form. The
/// codec's output is a function of the form alone; its exact byte layout is
/// the codec's own and is not restated here.
pub uninterp spec fn wire_bytes(f: WireForm) -> Seq<u8>;

/// Relies on `teehistorian::Chunk::serialize_into` for `Chunk::PlayerDiff`:
/// writes only into the given vector, never fails there, and asserts a
/// non-negative client id.
#[verifier::external_body]
fn ser_player_diff(cid: i32, dx: i32, dy: i32) -> (r: Vec<u8>)
    requires
        cid >= 0,
    ensures
        r@ == wire_bytes(WireForm::PlayerDiff { cid, dx, dy }),
{
    let mut buf = Vec::new();
    let c = teehistorian::Chunk::PlayerDiff(teehistorian::chunks::PlayerDiff { cid, dx, dy });
    c.serialize_into(&mut buf).expect("writing into a vector cannot fail");
    buf
}

/// Relies on `teehistorian::Chunk::serialize_into` for `Chunk::Eos`: writes
/// only into the given vector and never fails there.
#[verifier::external_body]
fn ser_eos() -> (r: Vec<u8>)
    ensures
        r@ == wire_bytes(WireForm::Eos),
{
    let mut buf = Vec::new();
    teehistorian::Chunk::Eos.serialize_into(&mut buf).expect(
        "writing into a vector cannot fail",
    );
    buf
}

/// Relies on `teehistorian::Chunk::serialize_into` for `Chunk::TickSkip`:
/// writes only into the given vector and never fails there.
#[verifier::external_body]
fn ser_tick_skip(dt: i32) -> (r: Vec<u8>)
    ensures
        r@ == wire_bytes(WireForm::TickSkip { dt }),
{
    let mut buf = Vec::new();
    teehistorian::Chunk::TickSkip { dt }.serialize_into(&mut buf).expect(
        "writing into a vector cannot fail",
    );
    buf
}

/// Relies on `teehistorian::Chunk::serialize_into` for `Chunk::PlayerNew`:
/// writes only into the given vector and never fails there.
#[verifier::external_body]
fn ser_player_new(cid: i32, x: i32, y: i32) -> (r: Vec<u8>)
    ensures
        r@ == wire_bytes(WireForm::PlayerNew { cid, x, y }),
{
    let mut buf = Vec::new();
    let c = teehistorian::Chunk::PlayerNew(teehistorian::chunks::PlayerNew { cid, x, y });
    c.serialize_into(&mut buf).expect("writing into a vector cannot fail");
    buf
}

/// Relies on `teehistorian::Chunk::serialize_into` for `Chunk::PlayerOld`:
/// writes only into the given vector and never fails there.
#[verifier::external_body]
fn ser_player_old(cid: i32) -> (r: Vec<u8>)
    ensures
        r@ == wire_bytes(WireForm::PlayerOld { cid }),
{
    let mut buf = Vec::new();
    teehistorian::Chunk::PlayerOld { cid }.serialize_into(&mut buf).expect(
        "writing into a vector cannot fail",
    );
    buf
}

/// Relies on `teehistorian::Chunk::serialize_into` for `Chunk::InputDiff`:
/// writes only into the given vector and never fails there.
#[verifier::external_body]
fn ser_input_diff(cid: i32, dinput: &Vec<i32>) -> (r: Vec<u8>)
    requires
        dinput@.len() == 10,
    ensures
        r@ == wire_bytes(WireForm::InputDiff { cid, dinput: dinput@ }),
{
    let mut buf = Vec::new();
    let arr: [i32; 10] = dinput.as_slice().try_into().expect("length checked by contract");
    let c = teehistorian::Chunk::InputDiff(teehistorian::chunks::InputDiff { cid, dinput: arr });
    c.serialize_into(&mut buf).expect("writing into a vector cannot fail");
    buf
}

/// Relies on `teehistorian::Chunk::serialize_into` for `Chunk::InputNew`:
/// writes only into the given vector and never fails there.
#[verifier::external_body]
fn ser_input_new(cid: i32, input: &Vec<i32>) -> (r: Vec<u8>)
    requires
        input@.len() == 10,
    ensures
        r@ == wire_bytes(WireForm::InputNew { cid, input: input@ }),
{
    let mut buf = Vec::new();
    let arr: [i32; 10] = input.as_slice().try_into().expect("length checked by contract");
    let c = teehistorian::Chunk::InputNew(teehistorian::chunks::InputNew { cid, input: arr });
    c.serialize_into(&mut buf).expect("writing into a vector cannot fail");
    buf
}

/// Relies on `teehistorian::Chunk::serialize_into` for `Chunk::NetMessage`:
/// writes only into the given vector and never fails there.
#[verifier::external_body]
fn ser_net_message(cid: i32, msg: &Vec<u8>) -> (r: Vec<u8>)
    ensures
        r@ == wire_bytes(WireForm::NetMessage { cid, msg: msg@ }),
{
    let mut buf = Vec::new();
    let c = teehistorian::Chunk::NetMessage(
        teehistorian::chunks::NetMessage { cid, msg: msg.as_slice() },
    );
    c.serialize_into(&mut buf).expect("writing into a vector cannot fail");
    buf
}

/// Relies on `teehistorian::Chunk::serialize_into` for `Chunk::Join`: writes
/// only into the given vector and never fails there.
#[verifier::external_body]
fn ser_join(cid: i32) -> (r: Vec<u8>)
    ensures
        r@ == wire_bytes(WireForm::Join { cid }),
{
    let mut buf = Vec::new();
    teehistorian::Chunk::Join { cid }.serialize_into(&mut buf).expect(
        "writing into a vector cannot fail",
    );
    buf
}

/// Relies on `teehistorian::Chunk::serialize_into` for `Chunk::Drop`: writes
/// only into the given vector and never fails there.
#[verifier::external_body]
fn ser_drop(cid: i32, reason: &Vec<u8>) -> (r: Vec<u8>)
    ensures
        r@ == wire_bytes(WireForm::Drop { cid, reason: reason@ }),
{
    let mut buf = Vec::new();
    let c = teehistorian::Chunk::Drop(
        teehistorian::chunks::Drop { cid, reason: reason.as_slice() },
    );
    c.serialize_into(&mut buf).expect("writing into a vector cannot fail");
    buf
}

/// Relies on `teehistorian::Chunk::serialize_into` for
/// `Chunk::ConsoleCommand`: writes only into the given vector and never
/// fails there.
#[verifier::external_body]
fn ser_console_command(cid: i32, flags: i32, cmd: &Vec<u8>, args: &Vec<Vec<u8>>) -> (r: Vec<u8>)
    ensures
        r@ == wire_bytes(
            WireForm::ConsoleCommand { cid, flags, cmd: cmd@, args: args.deep_view() },
        ),
{
    let mut buf = Vec::new();
    let arg_slices: Vec<&[u8]> = args.iter().map(|a| a.as_slice()).collect();
    let c = teehistorian::Chunk::ConsoleCommand(
        teehistorian::chunks::ConsoleCommand { cid, flags, cmd: cmd.as_slice(), args: arg_slices },
    );
    c.serialize_into(&mut buf).expect("writing into a vector cannot fail");
    buf
}

/// Relies on `teehistorian::Chunk::serialize_into` for `Chunk::UnknownEx`,
/// and on `uuid::Uuid::from_u128` to build the identifier from its 128-bit
/// value: writes only into the given vector and never fails there.
#[verifier::external_body]
fn ser_unknown_ex(token: u128, data: &Vec<u8>) -> (r: Vec<u8>)
    ensures
        r@ == wire_bytes(WireForm::UnknownEx { uuid: token, data: data@ }),
{
    let mut buf = Vec::new();
    let c = teehistorian::Chunk::UnknownEx(
        teehistorian::chunks::UnknownEx {
            uuid: uuid::Uuid::from_u128(token),
            data: data.as_slice(),
        },
    );
    c.serialize_into(&mut buf).expect("writing into a vector cannot fail");
    buf
}

/// Relies on `teehistorian::Chunk::serialize_into` for `Chunk::JoinVer6`:
/// the extension payload is one variable-width integer of at most 5 bytes,
/// well within the codec's 2048-byte scratch buffer, so it never fails.
#[verifier::external_body]
fn ser_join_ver6(cid: i32) -> (r: Vec<u8>)
    ensures
        r@ == wire_bytes(WireForm::JoinVer6 { cid }),
{
    let mut buf = Vec::new();
    teehistorian::Chunk::JoinVer6 { cid }.serialize_into(&mut buf).expect(
        "a single integer payload fits the codec's scratch buffer",
    );
    buf
}

/// Relies on `teehistorian::Chunk::serialize_into` for
/// `Chunk::TeamLoadFailure`: the extension payload is one variable-width
/// integer of at most 5 bytes, well within the codec's scratch buffer, so it
/// never fails.
#[verifier::external_body]
fn ser_team_load_failure(team: i32) -> (r: Vec<u8>)
    ensures
        r@ == wire_bytes(WireForm::TeamLoadFailure { team }),
{
    let mut buf = Vec::new();
    teehistorian::Chunk::TeamLoadFailure { team }.serialize_into(&mut buf).expect(
        "a single integer payload fits the codec's scratch buffer",
    );
    buf
}

/// Relies on `teehistorian::Chunk::serialize_into` for `Chunk::AuthLogin`:
/// succeeds whenever the payload (two variable-width integers of at most 5
/// bytes each, the name, a terminator) fits the codec's 2048-byte scratch
/// buffer.
#[verifier::external_body]
fn ser_auth_login(cid: i32, level: i32, auth_name: &Vec<u8>) -> (r: Result<
    Vec<u8>,
    teehistorian::Error,
>)
    ensures
        auth_name@.len() <= 2037 ==> r is Ok,
        r matches Ok(b) ==> b@ == wire_bytes(
            WireForm::AuthLogin { cid, level, auth_name: auth_name@ },
        ),
{
    let mut buf = Vec::new();
    let c = teehistorian::Chunk::AuthLogin(
        teehistorian::chunks::Auth { cid, level, auth_name: auth_name.as_slice() },
    );
    c.serialize_into(&mut buf).map(|_| buf)
}

/// Relies on `teehistorian::Chunk::serialize_into` for
/// `Chunk::TeamLoadSuccess`, and on `uuid::Uuid::from_u128` for the save
/// identifier: succeeds whenever the payload (an integer of at most 5 bytes,
/// 16 identifier bytes, the save data, a terminator) fits the codec's
/// 65536-byte scratch buffer for team saves.
#[verifier::external_body]
fn ser_team_load_success(team: i32, save_id: u128, save: &Vec<u8>) -> (r: Result<
    Vec<u8>,
    teehistorian::Error,
>)
    ensures
        save@.len() <= 65514 ==> r is Ok,
        r matches Ok(b) ==> b@ == wire_bytes(
            WireForm::TeamLoadSuccess { team, save_id, save: save@ },
        ),
{
    let mut buf = Vec::new();
    let c = teehistorian::Chunk::TeamLoadSuccess(
        teehistorian::chunks::TeamSave {
            team,
            save_id: uuid::Uuid::from_u128(save_id),
            save: save.as_slice(),
        },
    );
    c.serialize_into(&mut buf).map(|_| buf)
}

/// Relies on `teehistorian::Chunk::serialize_into` for `Chunk::Antibot`:
/// succeeds whenever the raw data payload fits the codec's 2048-byte scratch
/// buffer.
#[verifier::external_body]
fn ser_antibot(data: &Vec<u8>) -> (r: Result<Vec<u8>, teehistorian::Error>)
    ensures
        data@.len() <= 2048 ==> r is Ok,
        r matches Ok(b) ==> b@ == wire_bytes(WireForm::Antibot { data: data@ }),
{
    let mut buf = Vec::new();
    let c = teehistorian::Chunk::Antibot(teehistorian::chunks::Antibot { data: data.as_slice() });
    c.serialize_into(&mut buf).map(|_| buf)
}

/// Relies on `teehistorian::Chunk::serialize_into` for `Chunk::PlayerName`:
/// succeeds whenever the payload (an integer of at most 5 bytes, the name, a
/// terminator) fits the codec's 2048-byte scratch buffer.
#[verifier::external_body]
fn ser_player_name(cid: i32, name: &Vec<u8>) -> (r: Result<Vec<u8>, teehistorian::Error>)
    ensures
        name@.len() <= 2042 ==> r is Ok,
        r matches Ok(b) ==> b@ == wire_bytes(WireForm::PlayerName { cid, name: name@ }),
{
    let mut buf = Vec::new();
    let c = teehistorian::Chunk::PlayerName(
        teehistorian::chunks::PlayerName { cid, name: name.as_slice() },
    );
    c.serialize_into(&mut buf).map(|_| buf)
}

/// Relies on `teehistorian::Chunk::serialize_into` for
/// `Chunk::DdnetVersion`, and on `uuid::Uuid::from_u128` for the connection
/// identifier: succeeds whenever the payload (two integers of at most 5
/// bytes each, 16 identifier bytes, the version text, a terminator) fits the
/// codec's 2048-byte scratch buffer.
#[verifier::external_body]
fn ser_ddnet_version(cid: i32, connection_id: u128, version: i32, version_str: &Vec<u8>) -> (r:
    Result<Vec<u8>, teehistorian::Error>)
    ensures
        version_str@.len() <= 2021 ==> r is Ok,
        r matches Ok(b) ==> b@ == wire_bytes(
            WireForm::DdnetVersion { cid, connection_id, version, version_str: version_str@ },
        ),
{
    let mut buf = Vec::new();
    let c = teehistorian::Chunk::DdnetVersion(
        teehistorian::chunks::DdnetVersion {
            cid,
            connection_id: uuid::Uuid::from_u128(connection_id),
            version,
            version_str: version_str.as_slice(),
        },
    );
    c.serialize_into(&mut buf).map(|_| buf)
}

/// The error type of the teehistorian codec.
#[verifier::external_type_specification]
#[verifier::external_body]
pub struct ExThError(teehistorian::Error);

/// Relies on the `Display` rendering of `teehistorian::Error` to obtain a
/// human-readable cause text.
#[verifier::external_body]
fn th_error_text(e: &teehistorian::Error) -> String {
    format!("{}", e)
}

/// Encodes a wire value tree into its teehistorian byte representation.
///
/// Success is owed for every form the codec accepts ([`WireForm::fits`]);
/// the bytes of every successful encoding are exactly [`wire_bytes`] of the
/// chunk's form, so encoding is deterministic.
pub fn encode_wire(c: &WireChunk) -> (r: Result<Vec<u8>, EncodeError>)
    requires
        c.wf(),
    ensures
        c@.fits() ==> r is Ok,
        r matches Ok(b) ==> b@ == wire_bytes(c@),
{
    match c {
        WireChunk::PlayerDiff { cid, dx, dy } => {
            if *cid < 0 {
                Err(
                    EncodeError {
                        cause: "the codec rejects a position diff with a negative client id".to_owned(),
                    },
                )
            } else {
                Ok(ser_player_diff(*cid, *dx, *dy))
            }
        },
        WireChunk::Eos => Ok(ser_eos()),
        WireChunk::TickSkip { dt } => Ok(ser_tick_skip(*dt)),
        WireChunk::PlayerNew { cid, x, y } => Ok(ser_player_new(*cid, *x, *y)),
        WireChunk::PlayerOld { cid } => Ok(ser_player_old(*cid)),
        WireChunk::InputDiff { cid, dinput } => Ok(ser_input_diff(*cid, dinput)),
        WireChunk::InputNew { cid, input } => Ok(ser_input_new(*cid, input)),
        WireChunk::NetMessage { cid, msg } => Ok(ser_net_message(*cid, msg)),
        WireChunk::Join { cid } => Ok(ser_join(*cid)),
        WireChunk::Drop { cid, reason } => Ok(ser_drop(*cid, reason)),
        WireChunk::ConsoleCommand { cid, flags, cmd, args } => Ok(
            ser_console_command(*cid, *flags, cmd, args),
        ),
        WireChunk::UnknownEx { uuid, data } => Ok(ser_unknown_ex(*uuid, data)),
        WireChunk::JoinVer6 { cid } => Ok(ser_join_ver6(*cid)),
        WireChunk::TeamLoadFailure { team } => Ok(ser_team_load_failure(*team)),
        WireChunk::AuthLogin { cid, level, auth_name } => {
            match ser_auth_login(*cid, *level, auth_name) {
                Ok(b) => Ok(b),
                Err(e) => Err(EncodeError { cause: th_error_text(&e) }),
            }
        },
        WireChunk::TeamLoadSuccess { team, save_id, save } => {
            match ser_team_load_success(*team, *save_id, save) {
                Ok(b) => Ok(b),
                Err(e) => Err(EncodeError { cause: th_error_text(&e) }),
            }
        },
        WireChunk::Antibot { data } => {
            match ser_antibot(data) {
                Ok(b) => Ok(b),
                Err(e) => Err(EncodeError { cause: th_error_text(&e) }),
            }
        },
        WireChunk::PlayerName { cid, name } => {
            match ser_player_name(*cid, name) {
                Ok(b) => Ok(b),
                Err(e) => Err(EncodeError { cause: th_error_text(&e) }),
            }
        },
        WireChunk::DdnetVersion { cid, connection_id, version, version_str } => {
            match ser_ddnet_version(*cid, *connection_id, *version, version_str) {
                Ok(b) => Ok(b),
                Err(e) => Err(EncodeError { cause: th_error_text(&e) }),
            }
        },
    }
}

/// Encoding is deterministic: any two successful encodings of the same wire
/// form yield byte-identical output. Together with the contract of
/// [`encode_wire`], repeated encodings of one chunk value always agree.
pub proof fn lemma_encode_deterministic(f: WireForm, b1: Seq<u8>, b2: Seq<u8>)
    requires
        b1 == wire_bytes(f),
        b2 == wire_bytes(f),
    ensures
        b1 == b2,
{
}

} // verus!
