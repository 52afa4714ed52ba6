//! Fn-lock control for compatible USB HID keyboards.
//!
//! The crate holds the device catalog, the capability matcher, the command
//! codec, the toggle protocol and the per-device session state. It performs
//! no input or output of its own: a front end enumerates the platform's HID
//! devices, hands the records in, carries out the actions that the protocol
//! asks for, and hands the results back.

pub mod catalog;
pub mod codec;
pub mod controller;
pub mod dashboard;
pub mod error;
pub mod matcher;
pub mod session;
pub mod signature;
pub mod text;

use vstd::prelude::*;

use crate::catalog::device_views;
use crate::catalog::DeviceInfo;
use crate::codec::command_for;
use crate::codec::Command;
use crate::controller::begin_spec;
use crate::controller::failure;
use crate::controller::Action;
use crate::controller::ActionView;
use crate::controller::Toggle;
use crate::error::Error;
use crate::error::ErrorKind;
use crate::matcher::find_device;
use crate::matcher::is_first_available;
use crate::matcher::none_available;

verus! {

/// What the operator asked for on the command line.
#[derive(Clone, Copy, Debug, PartialEq, Eq, Structural)]
pub struct Opts {
    /// Unlock instead of lock.
    pub unlock: bool,
    /// Show the dashboard instead of toggling once.
    pub gui: bool,
}

impl Default for Opts {
    fn default() -> (opts: Opts)
        ensures
            opts == (Opts { unlock: false, gui: false }),
    {
        Opts { unlock: false, gui: false }
    }
}

/// Begins the one-shot toggle: the first controllable device of `devices` is
/// to be locked, or unlocked where `opts` says so. The toggle comes with its
/// first action, which is to open that device. Where no device is
/// controllable the answer is `NoTargetFound`.
pub fn api_main(opts: &Opts, devices: &[DeviceInfo]) -> (started: Result<(Toggle, Action), Error>)
    ensures
        match started {
            Ok((toggle, action)) => {
                let position = toggle@.identity.position;
                &&& is_first_available(device_views(devices@), position as int)
                &&& toggle@ == begin_spec(
                    device_views(devices@)[position as int],
                    position,
                    command_for(!opts.unlock),
                )
                &&& action@ == (ActionView::Open { handle: toggle@.handle })
            },
            Err(error) => {
                &&& none_available(device_views(devices@))
                &&& error@ == failure(ErrorKind::NoTargetFound, Seq::empty())
            },
        },
{
    let to_be_locked = !opts.unlock;
    match find_device(devices) {
        Some(position) => {
            assert(device_views(devices@)[position as int] == devices[position as int]@);
            let started = Toggle::begin(
                &devices[position],
                position,
                Command::from_lock_flag(to_be_locked),
            );
            Ok(started)
        },
        None => {
            proof {
                reveal_strlit("");
            }
            let error = Error::new(ErrorKind::NoTargetFound, "");
            assert(error@.detail =~= Seq::empty());
            Err(error)
        },
    }
}

} // verus!
