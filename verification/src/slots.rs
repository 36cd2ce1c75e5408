//! The tensors that a transcription has had created.
use crate::action::Slot;
use vstd::prelude::*;

verus! {

/// The tensors that have been created, each in its slot.
pub struct Slots<T> {
    waveforms: Option<T>,
    waveforms_lens: Option<T>,
    features: Option<T>,
    features_lens: Option<T>,
    encoder_embeddings: Option<T>,
    encoder_mask: Option<T>,
    input_ids: Option<T>,
    decoder_mems: Option<T>,
}

impl<T> Slots<T> {
    /// What is in a slot.
    spec fn content(self, slot: Slot) -> Option<T> {
        match slot {
            Slot::Waveforms => self.waveforms,
            Slot::WaveformsLens => self.waveforms_lens,
            Slot::Features => self.features,
            Slot::FeaturesLens => self.features_lens,
            Slot::EncoderEmbeddings => self.encoder_embeddings,
            Slot::EncoderMask => self.encoder_mask,
            Slot::InputIds => self.input_ids,
            Slot::DecoderMems => self.decoder_mems,
        }
    }

    /// The filled slots and what is in them.
    pub closed spec fn view(&self) -> Map<Slot, T> {
        Map::new(|slot: Slot| self.content(slot) is Some, |slot: Slot| self.content(slot).unwrap())
    }

    /// No slot is filled.
    pub fn new() -> (r: Self)
        ensures
            r@ == Map::<Slot, T>::empty(),
    {
        let r = Slots {
            waveforms: None,
            waveforms_lens: None,
            features: None,
            features_lens: None,
            encoder_embeddings: None,
            encoder_mask: None,
            input_ids: None,
            decoder_mems: None,
        };
        assert(r@ =~= Map::<Slot, T>::empty());
        r
    }

    /// Puts a tensor into a slot, in place of the one that was there before.
    pub fn put(&mut self, slot: Slot, tensor: T)
        ensures
            final(self)@ == old(self)@.insert(slot, tensor),
    {
        match slot {
            Slot::Waveforms => {
                self.waveforms = Some(tensor);
            },
            Slot::WaveformsLens => {
                self.waveforms_lens = Some(tensor);
            },
            Slot::Features => {
                self.features = Some(tensor);
            },
            Slot::FeaturesLens => {
                self.features_lens = Some(tensor);
            },
            Slot::EncoderEmbeddings => {
                self.encoder_embeddings = Some(tensor);
            },
            Slot::EncoderMask => {
                self.encoder_mask = Some(tensor);
            },
            Slot::InputIds => {
                self.input_ids = Some(tensor);
            },
            Slot::DecoderMems => {
                self.decoder_mems = Some(tensor);
            },
        }
        assert(self@ =~= old(self)@.insert(slot, tensor));
    }

    /// Keeps a tensor that was created; a failure to create one leaves the
    /// slots as they were and is handed back.
    pub fn keep(&mut self, slot: Slot, created: Result<T, ort::Error>) -> (r: Result<
        (),
        ort::Error,
    >)
        ensures
            match created {
                Ok(tensor) => r is Ok && final(self)@ == old(self)@.insert(slot, tensor),
                Err(e) => r == Err::<(), ort::Error>(e) && final(self)@ == old(self)@,
            },
    {
        match created {
            Ok(tensor) => {
                self.put(slot, tensor);
                Ok(())
            },
            Err(e) => Err(e),
        }
    }

    /// The tensor in a slot that is filled.
    pub fn get(&self, slot: Slot) -> (r: Option<&T>)
        ensures
            match r {
                Some(tensor) => self@.contains_key(slot) && self@[slot] == *tensor,
                None => !self@.contains_key(slot),
            },
    {
        match slot {
            Slot::Waveforms => self.waveforms.as_ref(),
            Slot::WaveformsLens => self.waveforms_lens.as_ref(),
            Slot::Features => self.features.as_ref(),
            Slot::FeaturesLens => self.features_lens.as_ref(),
            Slot::EncoderEmbeddings => self.encoder_embeddings.as_ref(),
            Slot::EncoderMask => self.encoder_mask.as_ref(),
            Slot::InputIds => self.input_ids.as_ref(),
            Slot::DecoderMems => self.decoder_mems.as_ref(),
        }
    }
}

} // verus!
