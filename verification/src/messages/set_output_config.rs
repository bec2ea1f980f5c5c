//! The output-configuration command: up to 32 records of data identifier
//! and output frequency — and its acknowledgment, which carries the
//! accepted configuration list back.

use vstd::prelude::*;
use crate::message::{MessageDecode, MessageEncode, MessageExt};
use crate::message::frame::{Frame, FrameError};
use crate::message::message_id::MessageId;
use crate::message::payload_length::PayloadLength;
use crate::wire::output_config::{
    lemma_configs_bytes_len,
    spec_config_bytes,
    spec_configs_bytes,
    OutputConfiguration,
    WireOutputConfigurationIterator,
};

verus! {

/// More than 32 output-configuration records were given.
#[derive(Debug, Copy, Clone, PartialEq, Eq, Structural, Hash)]
pub struct TooManyOutputConifgurations;

/// The command setting the device's output configuration. Carries up to
/// 32 records; the encoding holds the records in order, four bytes each.
#[derive(Debug, Clone)]
pub struct SetOutputConfiguration {
    settings: Vec<OutputConfiguration>,
}

impl View for SetOutputConfiguration {
    type V = Seq<OutputConfiguration>;

    closed spec fn view(&self) -> Seq<OutputConfiguration> {
        self.settings@
    }
}

impl SetOutputConfiguration {
    /// Largest number of records one command can carry.
    pub const MAX_SETTINGS: usize = 32;

    pub fn new_unchecked(settings: Vec<OutputConfiguration>) -> (r: Self)
        ensures
            r@ == settings@,
    {
        SetOutputConfiguration { settings }
    }

    /// Wrap a record list after checking it holds at most 32 records.
    pub fn new(settings: Vec<OutputConfiguration>) -> (r: Result<
        Self,
        TooManyOutputConifgurations,
    >)
        ensures
            match r {
                Ok(m) => settings@.len() <= 32 && m@ == settings@,
                Err(_) => settings@.len() > 32,
            },
    {
        let m = Self::new_unchecked(settings);
        match m.check_len() {
            Err(e) => Err(e),
            Ok(_) => Ok(m),
        }
    }

    pub fn check_len(&self) -> (r: Result<(), TooManyOutputConifgurations>)
        ensures
            r == if self@.len() > 32 {
                Err::<(), TooManyOutputConifgurations>(TooManyOutputConifgurations)
            } else {
                Ok::<(), TooManyOutputConifgurations>(())
            },
    {
        if self.settings.len() > Self::MAX_SETTINGS {
            Err(TooManyOutputConifgurations)
        } else {
            Ok(())
        }
    }
}

impl MessageExt for SetOutputConfiguration {
    open spec fn spec_msg_id() -> u8 {
        0xC0
    }

    fn message_id(&self) -> (r: MessageId) {
        MessageId(0xC0)
    }
}

impl MessageEncode for SetOutputConfiguration {
    /// The first 32 records (all of them when fewer), four bytes each.
    open spec fn spec_payload(&self) -> Seq<u8> {
        spec_configs_bytes(
            if self@.len() > 32 {
                self@.take(32)
            } else {
                self@
            },
        )
    }

    fn encode(&self, frame: &mut Frame) -> (r: Result<(), FrameError>) {
        let num_settings: usize = if self.settings.len() > Self::MAX_SETTINGS {
            Self::MAX_SETTINGS
        } else {
            self.settings.len()
        };
        let ghost taken = if self@.len() > 32 {
            self@.take(32)
        } else {
            self@
        };
        proof {
            assert(taken =~= self@.take(num_settings as int));
            lemma_configs_bytes_len(taken);
        }
        frame.set_message_id(MessageId(0xC0));
        let min_size: usize = 4 * num_settings;
        let pl = match PayloadLength::new(min_size) {
            Some(pl) => pl,
            None => return Err(FrameError::InvalidPayloadLength),
        };
        frame.set_payload_length(pl);
        match frame.check_payload_length() {
            Err(e) => return Err(e),
            Ok(_) => (),
        }
        let mut payload: Vec<u8> = Vec::new();
        let mut k: usize = 0;
        while k < num_settings
            invariant
                0 <= k <= num_settings,
                num_settings <= self.settings@.len(),
                num_settings <= 32,
                taken == self.settings@.take(num_settings as int),
                payload@ == spec_configs_bytes(taken.take(k as int)),
                payload@.len() == 4 * k,
            decreases num_settings - k,
        {
            let c = self.settings[k];
            let wire = c.data_id.to_wire();
            payload.push((wire / 0x100) as u8);
            payload.push((wire % 0x100) as u8);
            payload.push((c.output_frequency.0 / 0x100) as u8);
            payload.push((c.output_frequency.0 % 0x100) as u8);
            proof {
                let upto = taken.take(k + 1);
                assert(upto.drop_last() =~= taken.take(k as int));
                assert(upto.last() == taken[k as int]);
                assert(payload@ =~= spec_configs_bytes(taken.take(k as int)) + spec_config_bytes(
                    taken[k as int],
                ));
                lemma_configs_bytes_len(taken.take(k + 1));
            }
            k = k + 1;
        }
        proof {
            assert(taken.take(num_settings as int) =~= taken);
        }
        match frame.set_payload(payload.as_slice()) {
            Err(e) => return Err(e),
            Ok(_) => (),
        }
        proof {
            assert(frame@.subrange(4, 4 + min_size as int) =~= payload@);
            assert(frame@.skip(4 + min_size as int) =~= old(frame)@.skip(4 + min_size as int));
        }
        Ok(())
    }
}

/// Acknowledgment of the output-configuration command, carrying the
/// configuration list the device accepted.
#[derive(Debug, Clone)]
pub struct SetOutputConfigurationAck(pub WireOutputConfigurationIterator);

impl MessageExt for SetOutputConfigurationAck {
    open spec fn spec_msg_id() -> u8 {
        0xC1
    }

    fn message_id(&self) -> (r: MessageId) {
        MessageId(0xC1)
    }
}

impl MessageDecode for SetOutputConfigurationAck {
    open spec fn spec_decoded(b: Seq<u8>, r: Self) -> bool {
        r.0@ == Frame::spec_payload_bytes(b)
    }

    fn decode_frame(frame: &Frame) -> (r: Result<Self, FrameError>) {
        match frame.payload() {
            Ok(payload) => Ok(
                SetOutputConfigurationAck(WireOutputConfigurationIterator::new(payload)),
            ),
            Err(e) => Err(e),
        }
    }
}

} // verus!
