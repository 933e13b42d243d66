//! Command dispatcher: the top-level state machine over framed commands.
//! It decides, from the current session state and one inbound event, the next
//! session state and the single action the surrounding host loop must take.
//! The host performs the action (show a screen, derive a key, sign, send a
//! reply) and hands the outcome back as the next event; holder approval is
//! the only channel that can authorize signing.

use crate::review::{
    build_review_fields, spec_field, spec_fields, ReviewConfig, ReviewField,
};
use crate::tx::{copy_range, decode, spec_coin, spec_decode_err, spec_memo, spec_to, spec_value, DecodeError};
use vstd::prelude::*;

verus! {

/// Wire instruction code for the public-key request.
pub const INS_GET_PUBKEY: u8 = 2;

/// Wire instruction code for the sign request.
pub const INS_SIGN: u8 = 3;

/// Wire instruction code for entering the menu.
pub const INS_MENU: u8 = 4;

/// Wire instruction code for terminating the application.
pub const INS_EXIT: u8 = 0xff;

/// Status word: success.
pub const SW_OK: u16 = 0x9000;

/// Status word: a sign command arrived with an empty payload.
pub const SW_NOTHING_RECEIVED: u16 = 0x6982;

/// Status word: a payload field length is inconsistent with the buffer.
pub const SW_MALFORMED: u16 = 0x6A80;

/// Status word: a payload field exceeds its fixed bound.
pub const SW_TOO_LARGE: u16 = 0x6A84;

/// Status word: a review field could not be formatted within its budget.
pub const SW_DISPLAY_FAIL: u16 = 0x6A86;

/// Status word: key derivation failed.
pub const SW_DERIVATION_FAILED: u16 = 0x6E00;

/// Status word: the signing primitive failed.
pub const SW_SIGN_FAILED: u16 = 0x6E01;

/// Status word: the instruction code is outside the known set.
pub const SW_UNKNOWN_INSTRUCTION: u16 = 0x6D00;

/// The known instruction set.
#[derive(Clone, Copy, Debug, PartialEq, Eq, Structural)]
pub enum Instruction {
    GetPubkey,
    Sign,
    Menu,
    Exit,
}

/// Which instruction a wire code names, if any.
pub open spec fn spec_instruction(code: u8) -> Option<Instruction> {
    if code == INS_GET_PUBKEY {
        Some(Instruction::GetPubkey)
    } else if code == INS_SIGN {
        Some(Instruction::Sign)
    } else if code == INS_MENU {
        Some(Instruction::Menu)
    } else if code == INS_EXIT {
        Some(Instruction::Exit)
    } else {
        None
    }
}

/// Maps a wire instruction code to its instruction; `None` for any code
/// outside the known set.
pub fn instruction_from_code(code: u8) -> (r: Option<Instruction>)
    ensures
        r == spec_instruction(code),
{
    if code == INS_GET_PUBKEY {
        Some(Instruction::GetPubkey)
    } else if code == INS_SIGN {
        Some(Instruction::Sign)
    } else if code == INS_MENU {
        Some(Instruction::Menu)
    } else if code == INS_EXIT {
        Some(Instruction::Exit)
    } else {
        None
    }
}

/// The single signing session: at most one is in flight, created by a sign
/// command and destroyed as soon as its outcome is consumed. The payload held
/// while awaiting approval or signature is exactly the bytes that were
/// decoded and displayed.
pub enum Session {
    Idle,
    AwaitingApproval { payload: Vec<u8> },
    AwaitingSignature { payload: Vec<u8> },
    AwaitingPubkey,
}

/// One inbound event: a framed command from the link, or the outcome of an
/// action the host was asked to perform.
pub enum Event {
    Command { code: u8, payload: Vec<u8> },
    HolderDecision { approved: bool },
    SignOutcome { signature: Option<Vec<u8>> },
    PubkeyOutcome { pubkey: Option<Vec<u8>> },
}

/// The single action the host loop must perform next. `Reply` closes the
/// command cycle with a status word and response bytes.
pub enum Action {
    Reply { status: u16, data: Vec<u8> },
    ShowReview { fields: Vec<ReviewField> },
    SignPayload { payload: Vec<u8> },
    DerivePubkey,
    ShowMenu,
    ExitApp,
}

/// Which event each session state is waiting for. The device is
/// single-session: the host loop is blocked on exactly this outcome and
/// cannot produce any other event first.
pub open spec fn spec_expects(s: Session, e: Event) -> bool {
    match (s, e) {
        (Session::Idle, Event::Command { .. }) => true,
        (Session::AwaitingApproval { .. }, Event::HolderDecision { .. }) => true,
        (Session::AwaitingSignature { .. }, Event::SignOutcome { .. }) => true,
        (Session::AwaitingPubkey, Event::PubkeyOutcome { .. }) => true,
        _ => false,
    }
}

/// The action is a reply with exactly this status word and these bytes.
pub open spec fn spec_reply(a: Action, status: u16, data: Seq<u8>) -> bool {
    a matches Action::Reply { status: st, data: d } && st == status && d@ == data
}

/// The full transition relation of the dispatcher: for a session state and an
/// event, what the next state and the emitted action must be.
pub open spec fn spec_step(s: Session, e: Event, show_memo: bool, r: (Session, Action)) -> bool {
    match (s, e) {
        (Session::Idle, Event::Command { code, payload }) => match spec_instruction(code) {
            None => r.0 is Idle && spec_reply(r.1, SW_UNKNOWN_INSTRUCTION, Seq::empty()),
            Some(Instruction::Menu) => r.0 is Idle && r.1 is ShowMenu,
            Some(Instruction::Exit) => r.0 is Idle && r.1 is ExitApp,
            Some(Instruction::GetPubkey) => r.0 is AwaitingPubkey && r.1 is DerivePubkey,
            Some(Instruction::Sign) => if payload@.len() == 0 {
                r.0 is Idle && spec_reply(r.1, SW_NOTHING_RECEIVED, Seq::empty())
            } else {
                match spec_decode_err(payload@) {
                    Some(DecodeError::Malformed) => r.0 is Idle && spec_reply(
                        r.1,
                        SW_MALFORMED,
                        Seq::empty(),
                    ),
                    Some(DecodeError::TooLarge) => r.0 is Idle && spec_reply(
                        r.1,
                        SW_TOO_LARGE,
                        Seq::empty(),
                    ),
                    None => {
                        &&& r.0 matches Session::AwaitingApproval { payload: p } && p@
                            == payload@
                        &&& r.1 matches Action::ShowReview { fields } && fields@.map_values(
                            |f: ReviewField| spec_field(f),
                        ) == spec_fields(
                            spec_coin(payload@),
                            spec_value(payload@) as u64,
                            spec_to(payload@),
                            spec_memo(payload@),
                            show_memo,
                        )
                    },
                }
            },
        },
        (Session::AwaitingApproval { payload }, Event::HolderDecision { approved }) => {
            if approved {
                &&& r.0 matches Session::AwaitingSignature { payload: p } && p@ == payload@
                &&& r.1 matches Action::SignPayload { payload: q } && q@ == payload@
            } else {
                r.0 is Idle && spec_reply(r.1, SW_OK, Seq::empty())
            }
        },
        (Session::AwaitingSignature { .. }, Event::SignOutcome { signature }) => match signature {
            Some(sig) => r.0 is Idle && spec_reply(r.1, SW_OK, sig@),
            None => r.0 is Idle && spec_reply(r.1, SW_SIGN_FAILED, Seq::empty()),
        },
        (Session::AwaitingPubkey, Event::PubkeyOutcome { pubkey }) => match pubkey {
            Some(pk) => r.0 is Idle && spec_reply(r.1, SW_OK, pk@),
            None => r.0 is Idle && spec_reply(r.1, SW_DERIVATION_FAILED, Seq::empty()),
        },
        _ => true,
    }
}

/// Advances the dispatcher by one event.
///
/// Besides the full transition relation, the contract states on its own the
/// approval guarantees: a rejection is an explicit empty success and never a
/// signing request; an approval requests a signature over exactly the bytes
/// that were decoded and displayed; an empty sign payload is answered with
/// `SW_NOTHING_RECEIVED` and constructs no transaction.
pub fn step(session: Session, event: Event, config: &ReviewConfig) -> (r: (Session, Action))
    requires
        spec_expects(session, event),
    ensures
        spec_step(session, event, config.show_memo, r),
        (event matches Event::HolderDecision { approved: false }) ==> r.0 is Idle && spec_reply(
            r.1,
            SW_OK,
            Seq::empty(),
        ) && !(r.1 is SignPayload),
        match (session, event) {
            (
                Session::AwaitingApproval { payload },
                Event::HolderDecision { approved: true },
            ) => r.1 matches Action::SignPayload { payload: q } && q@ == payload@,
            _ => true,
        },
        match (session, event) {
            (Session::Idle, Event::Command { code, payload }) => (spec_instruction(code)
                == Some(Instruction::Sign) && payload@.len() == 0) ==> (r.0 is Idle
                && spec_reply(r.1, SW_NOTHING_RECEIVED, Seq::empty())),
            _ => true,
        },
{
    match (session, event) {
        (Session::Idle, Event::Command { code, payload }) => {
            match instruction_from_code(code) {
                None => (
                    Session::Idle,
                    Action::Reply { status: SW_UNKNOWN_INSTRUCTION, data: Vec::new() },
                ),
                Some(Instruction::Menu) => (Session::Idle, Action::ShowMenu),
                Some(Instruction::Exit) => (Session::Idle, Action::ExitApp),
                Some(Instruction::GetPubkey) => (Session::AwaitingPubkey, Action::DerivePubkey),
                Some(Instruction::Sign) => {
                    if payload.len() == 0 {
                        (
                            Session::Idle,
                            Action::Reply { status: SW_NOTHING_RECEIVED, data: Vec::new() },
                        )
                    } else {
                        match decode(&payload) {
                            Err(DecodeError::Malformed) => (
                                Session::Idle,
                                Action::Reply { status: SW_MALFORMED, data: Vec::new() },
                            ),
                            Err(DecodeError::TooLarge) => (
                                Session::Idle,
                                Action::Reply { status: SW_TOO_LARGE, data: Vec::new() },
                            ),
                            Ok(tx) => match build_review_fields(&tx, config) {
                                Err(_) => (
                                    Session::Idle,
                                    Action::Reply { status: SW_DISPLAY_FAIL, data: Vec::new() },
                                ),
                                Ok(fields) => (
                                    Session::AwaitingApproval { payload },
                                    Action::ShowReview { fields },
                                ),
                            },
                        }
                    }
                },
            }
        },
        (Session::AwaitingApproval { payload }, Event::HolderDecision { approved }) => {
            if approved {
                let reviewed = copy_range(&payload, 0, payload.len());
                proof {
                    assert(payload@.subrange(0, payload@.len() as int) =~= payload@);
                }
                (
                    Session::AwaitingSignature { payload },
                    Action::SignPayload { payload: reviewed },
                )
            } else {
                (Session::Idle, Action::Reply { status: SW_OK, data: Vec::new() })
            }
        },
        (Session::AwaitingSignature { .. }, Event::SignOutcome { signature }) => match signature {
            Some(sig) => (Session::Idle, Action::Reply { status: SW_OK, data: sig }),
            None => (Session::Idle, Action::Reply { status: SW_SIGN_FAILED, data: Vec::new() }),
        },
        (Session::AwaitingPubkey, Event::PubkeyOutcome { pubkey }) => match pubkey {
            Some(pk) => (Session::Idle, Action::Reply { status: SW_OK, data: pk }),
            None => (
                Session::Idle,
                Action::Reply { status: SW_DERIVATION_FAILED, data: Vec::new() },
            ),
        },
        _ => {
            proof {
                assert(false);
            }
            (Session::Idle, Action::ShowMenu)
        },
    }
}

} // verus!
