//! The messages that configure paths and quotas.

use vstd::prelude::*;
use vstd::string::*;

verus! {

/// The configuration of one quota: its name, the length of its window in
/// seconds, and the percentages for sending and for receiving, in that
/// order.
#[derive(Debug, PartialEq, Eq)]
pub struct QuotaMsg {
    pub name: String,
    pub duration: u64,
    pub send_recv: (u32, u32),
}

impl Clone for QuotaMsg {
    fn clone(&self) -> (r: QuotaMsg)
        ensures
            r == *self,
    {
        QuotaMsg {
            name: self.name.clone(),
            duration: self.duration,
            send_recv: (self.send_recv.0, self.send_recv.1),
        }
    }
}

impl QuotaMsg {
    pub fn new(name: &str, seconds: u64, send_percentage: u32, recv_percentage: u32) -> (r:
        QuotaMsg)
        ensures
            r.name@ == name@,
            r.duration == seconds,
            r.send_recv == (send_percentage, recv_percentage),
    {
        QuotaMsg {
            name: name.to_owned(),
            duration: seconds,
            send_recv: (send_percentage, recv_percentage),
        }
    }
}

/// The configuration of one path: its channel, its denom and its quotas.
#[derive(Debug, PartialEq, Eq)]
pub struct PathMsg {
    pub channel_id: String,
    pub denom: String,
    pub quotas: Vec<QuotaMsg>,
}

impl Clone for PathMsg {
    fn clone(&self) -> (r: PathMsg)
        ensures
            r.channel_id == self.channel_id,
            r.denom == self.denom,
            r.quotas@ == self.quotas@,
    {
        PathMsg {
            channel_id: self.channel_id.clone(),
            denom: self.denom.clone(),
            quotas: self.quotas.clone(),
        }
    }
}

impl PathMsg {
    pub fn new(channel: &str, denom: &str, quotas: Vec<QuotaMsg>) -> (r: PathMsg)
        ensures
            r.channel_id@ == channel@,
            r.denom@ == denom@,
            r.quotas == quotas,
    {
        PathMsg { channel_id: channel.to_owned(), denom: denom.to_owned(), quotas }
    }
}

} // verus!
