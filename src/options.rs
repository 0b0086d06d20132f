//! Publish/subscribe options and the engine's options record.
#![allow(non_camel_case_types, non_snake_case)]

use vstd::prelude::*;

verus! {

/// Microseconds in the default update interval of 100 ms.
pub const DEFAULT_UPDATE_INTERVAL_MICROS: u64 = 100_000;
/// The queue bound the engine applies when none is given and every update is sent.
pub const DEFAULT_QUEUE_LENGTH_SEND_ALL: u32 = 1;
/// The queue bound the engine applies when none is given otherwise.
pub const DEFAULT_QUEUE_LENGTH: u32 = 20;

/// Options of a subscription or publication.
#[derive(Debug, Clone, Copy, PartialEq, Eq, Structural, Hash)]
pub struct PubSubOptions {
    /// The most updates kept between two drains of a subscriber's queue; when
    /// `None`, 1 if [`Self::send_all_updates`] is set and 20 otherwise.
    pub queue_length: Option<u32>,
    /// How often changes are sent over the network, in microseconds.
    pub update_interval: u64,
    /// Send every value change over the network.
    pub send_all_updates: bool,
    /// Drop a value change that repeats the previous value.
    pub ignore_duplicates: bool,
}

impl PubSubOptions {
    pub fn new(
        queue_length: Option<u32>,
        update_interval: u64,
        send_all_updates: bool,
        ignore_duplicates: bool,
    ) -> (r: Self)
        ensures
            r == (PubSubOptions { queue_length, update_interval, send_all_updates, ignore_duplicates }),
    {
        PubSubOptions { queue_length, update_interval, send_all_updates, ignore_duplicates }
    }

    /// A builder that starts from the default options.
    pub fn builder() -> (r: PubSubOptionsBuilder)
        ensures
            r.options == default_options(),
    {
        PubSubOptionsBuilder {
            options: PubSubOptions {
                queue_length: None,
                update_interval: DEFAULT_UPDATE_INTERVAL_MICROS,
                send_all_updates: false,
                ignore_duplicates: true,
            },
        }
    }

    /// The bound on the queue that applies with these options.
    pub fn effective_queue_length(&self) -> (r: u32)
        ensures
            r == match self.queue_length {
                Some(n) => n,
                None => if self.send_all_updates {
                    DEFAULT_QUEUE_LENGTH_SEND_ALL
                } else {
                    DEFAULT_QUEUE_LENGTH
                },
            },
    {
        match self.queue_length {
            Some(n) => n,
            None => if self.send_all_updates {
                DEFAULT_QUEUE_LENGTH_SEND_ALL
            } else {
                DEFAULT_QUEUE_LENGTH
            },
        }
    }

    /// The engine's options record for these options.
    pub fn to_raw(&self) -> (r: NT_PubSubOptions)
        ensures
            r == raw_options_of(*self),
    {
        NT_PubSubOptions {
            pollStorage: match self.queue_length {
                Some(n) => n,
                None => 0,
            },
            periodic_micros: self.update_interval,
            excludePublisher: 0,
            sendAll: if self.send_all_updates {
                1
            } else {
                0
            },
            topicsOnly: 0,
            prefixMatch: 0,
            keepDuplicates: if self.ignore_duplicates {
                0
            } else {
                1
            },
            disableRemote: 0,
            disableLocal: 0,
            excludeSelf: 0,
            hidden: 0,
        }
    }

    /// The options an engine record stands for.
    pub fn from_raw(raw: &NT_PubSubOptions) -> (r: Self)
        ensures
            r == (PubSubOptions {
                queue_length: Some(raw.pollStorage),
                update_interval: raw.periodic_micros,
                send_all_updates: raw.sendAll != 0,
                ignore_duplicates: raw.keepDuplicates == 0,
            }),
    {
        PubSubOptions {
            queue_length: Some(raw.pollStorage),
            update_interval: raw.periodic_micros,
            send_all_updates: raw.sendAll != 0,
            ignore_duplicates: raw.keepDuplicates == 0,
        }
    }
}

impl Default for PubSubOptions {
    fn default() -> (r: Self)
        ensures
            r == default_options(),
    {
        PubSubOptions::builder().build()
    }
}

/// The default options: no explicit queue bound, updates every 100 ms, only
/// the latest change sent, duplicates dropped.
pub open spec fn default_options() -> PubSubOptions {
    PubSubOptions {
        queue_length: None,
        update_interval: DEFAULT_UPDATE_INTERVAL_MICROS,
        send_all_updates: false,
        ignore_duplicates: true,
    }
}

/// Builds [`PubSubOptions`] from the defaults, one field at a time.
#[derive(Debug, Clone, Copy, PartialEq, Eq, Structural)]
pub struct PubSubOptionsBuilder {
    pub options: PubSubOptions,
}

impl PubSubOptionsBuilder {
    pub fn queue_length(self, queue_length: u32) -> (r: Self)
        ensures
            r.options == (PubSubOptions { queue_length: Some(queue_length), ..self.options }),
    {
        PubSubOptionsBuilder { options: PubSubOptions { queue_length: Some(queue_length), ..self.options } }
    }

    pub fn update_interval(self, update_interval: u64) -> (r: Self)
        ensures
            r.options == (PubSubOptions { update_interval, ..self.options }),
    {
        PubSubOptionsBuilder { options: PubSubOptions { update_interval, ..self.options } }
    }

    pub fn send_all_updates(self, send_all_updates: bool) -> (r: Self)
        ensures
            r.options == (PubSubOptions { send_all_updates, ..self.options }),
    {
        PubSubOptionsBuilder { options: PubSubOptions { send_all_updates, ..self.options } }
    }

    pub fn ignore_duplicates(self, ignore_duplicates: bool) -> (r: Self)
        ensures
            r.options == (PubSubOptions { ignore_duplicates, ..self.options }),
    {
        PubSubOptionsBuilder { options: PubSubOptions { ignore_duplicates, ..self.options } }
    }

    pub fn build(self) -> (r: PubSubOptions)
        ensures
            r == self.options,
    {
        self.options
    }
}

/// The engine's publish/subscribe options record. The update period is kept
/// in microseconds; the engine reads it in seconds.
#[derive(Debug, Clone, Copy, PartialEq, Eq, Structural)]
pub struct NT_PubSubOptions {
    /// Queue bound for a subscription; 0 leaves it to the engine's default.
    pub pollStorage: u32,
    pub periodic_micros: u64,
    pub excludePublisher: u32,
    pub sendAll: i32,
    pub topicsOnly: i32,
    pub prefixMatch: i32,
    pub keepDuplicates: i32,
    pub disableRemote: i32,
    pub disableLocal: i32,
    pub excludeSelf: i32,
    pub hidden: i32,
}

/// The engine record for `o`: the queue bound (0 when none is given), the
/// period, send-all, and keep-duplicates as the negation of ignoring them;
/// every other option off.
pub open spec fn raw_options_of(o: PubSubOptions) -> NT_PubSubOptions {
    NT_PubSubOptions {
        pollStorage: match o.queue_length {
            Some(n) => n,
            None => 0,
        },
        periodic_micros: o.update_interval,
        excludePublisher: 0,
        sendAll: if o.send_all_updates {
            1
        } else {
            0
        },
        topicsOnly: 0,
        prefixMatch: 0,
        keepDuplicates: if o.ignore_duplicates {
            0
        } else {
            1
        },
        disableRemote: 0,
        disableLocal: 0,
        excludeSelf: 0,
        hidden: 0,
    }
}

/// Options with an explicit queue bound survive the trip through the engine's
/// record unchanged.
pub proof fn lemma_options_round_trip(o: PubSubOptions)
    requires
        o.queue_length is Some,
    ensures
        ({
            let raw = raw_options_of(o);
            PubSubOptions {
                queue_length: Some(raw.pollStorage),
                update_interval: raw.periodic_micros,
                send_all_updates: raw.sendAll != 0,
                ignore_duplicates: raw.keepDuplicates == 0,
            } == o
        }),
{
}

} // verus!
