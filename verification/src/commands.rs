//! Command tags of the wire protocol, one byte each.

use vstd::prelude::*;

verus! {

pub const CMD_HEARTBEAT_REQUEST: u8 = 0x01;

pub const CMD_HEARTBEAT_RESPONSE: u8 = 0x02;

pub const CMD_WRITE_EVENTS: u8 = 0x82;

pub const CMD_WRITE_EVENTS_COMPLETED: u8 = 0x83;

pub const CMD_READ_EVENT: u8 = 0xB0;

pub const CMD_READ_EVENT_COMPLETED: u8 = 0xB1;

pub const CMD_SUBSCRIBE_TO_STREAM: u8 = 0xC0;

pub const CMD_SUBSCRIPTION_CONFIRMATION: u8 = 0xC1;

pub const CMD_STREAM_EVENT_APPEARED: u8 = 0xC2;

pub const CMD_UNSUBSCRIBE_FROM_STREAM: u8 = 0xC3;

pub const CMD_SUBSCRIPTION_DROPPED: u8 = 0xC4;

pub const CMD_CONNECT_TO_PERSISTENT_SUBSCRIPTION: u8 = 0xC5;

pub const CMD_PERSISTENT_SUBSCRIPTION_CONFIRMATION: u8 = 0xC6;

pub const CMD_PERSISTENT_SUBSCRIPTION_STREAM_EVENT_APPEARED: u8 = 0xC7;

pub const CMD_PERSISTENT_SUBSCRIPTION_ACK_EVENTS: u8 = 0xCC;

pub const CMD_PERSISTENT_SUBSCRIPTION_NAK_EVENTS: u8 = 0xCD;

pub const CMD_BAD_REQUEST: u8 = 0xF0;

pub const CMD_NOT_HANDLED: u8 = 0xF1;

pub const CMD_IDENTIFY_CLIENT: u8 = 0xF5;

pub const CMD_CLIENT_IDENTIFIED: u8 = 0xF6;

pub const CMD_NOT_AUTHENTICATED: u8 = 0xF4;

} // verus!
