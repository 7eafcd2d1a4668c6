//! Air-quality cache: the published state of the background refresher.
//! The refresher task itself (periodic remote fetch, sleep, atomic store)
//! runs outside the library; the policy it follows — overwrite on a
//! successful fetch, keep the previous value on a failed one, start at the
//! zero sentinel — is this module, and is what makes a stale read safe.
use vstd::prelude::*;

use crate::block::SwayBarBlock;
use crate::text::dec;

verus! {

/// What one fetch attempt does to the published value: a successful
/// fetch overwrites it, a failed one leaves it untouched.
pub open spec fn apply_event(current: u32, fetched: Option<u32>) -> u32 {
    match fetched {
        Some(v) => v,
        None => current,
    }
}

/// The published value after a whole history of fetch attempts, starting
/// from the zero sentinel.
pub open spec fn cache_after(events: Seq<Option<u32>>) -> u32
    decreases events.len(),
{
    if events.len() == 0 {
        0
    } else {
        apply_event(cache_after(events.drop_last()), events.last())
    }
}

/// The air-quality value as the emission cycle sees it. Zero is the
/// sentinel: nothing fetched yet, or the feature is disabled.
pub struct AqiFetcher {
    pub aqi: u32,
}

impl AqiFetcher {
    /// A fresh cache holds the sentinel.
    pub fn new() -> (r: AqiFetcher)
        ensures
            r.aqi == 0,
    {
        AqiFetcher { aqi: 0 }
    }

    /// Record one fetch attempt: `Some` overwrites the value, `None`
    /// (a failed fetch) keeps the previous one.
    pub fn apply_fetch(&mut self, fetched: Option<u32>)
        ensures
            final(self).aqi == apply_event(old(self).aqi, fetched),
    {
        match fetched {
            Some(v) => {
                self.aqi = v;
            },
            None => {},
        }
    }

    /// The latest published value, `None` while it is the sentinel.
    /// Never blocks and never fetches: it only observes.
    pub fn current_value(&self) -> (r: Option<u32>)
        ensures
            self.aqi > 0 ==> r == Some(self.aqi),
            self.aqi == 0 ==> r is None,
    {
        if self.aqi > 0 {
            Some(self.aqi)
        } else {
            None
        }
    }

    /// The air-quality block, or `None` while the value is the sentinel
    /// (the block is then omitted from the snapshot; that is normal
    /// operation, not an error).
    pub fn get(&self) -> (r: Option<SwayBarBlock>)
        ensures
            self.aqi > 0 ==> r is Some && r->0.name@ == seq![0x61u8, 0x71, 0x69]
                && r->0.full_text@ == aqi_text(self.aqi as nat) && r->0.min_width == Some(9usize)
                && r->0.urgent is None && r->0.color is None,
            self.aqi == 0 ==> r is None,
    {
        let aqi = self.aqi;
        if aqi > 0 {
            // "aqi"
            let name_lit: [u8; 3] = [0x61, 0x71, 0x69];
            let mut name: Vec<u8> = Vec::new();
            crate::text::push_bytes(&mut name, name_lit.as_slice());
            // "AQI: "
            let prefix: [u8; 5] = [0x41, 0x51, 0x49, 0x3a, 0x20];
            let mut text: Vec<u8> = Vec::new();
            crate::text::push_bytes(&mut text, prefix.as_slice());
            crate::text::push_dec(&mut text, aqi as u64);
            assert(text@ =~= aqi_text(self.aqi as nat));
            Some(SwayBarBlock { name, full_text: text, min_width: Some(9), urgent: None, color: None })
        } else {
            None
        }
    }
}

/// "AQI: " then the index value.
pub open spec fn aqi_text(aqi: nat) -> Seq<u8> {
    seq![0x41u8, 0x51, 0x49, 0x3a, 0x20] + dec(aqi)
}

/// The stale-read law of the background refresher: while no fetch has
/// succeeded the cache still holds the sentinel, and a failed fetch at
/// the end of any history leaves the cache exactly as the history
/// before it left it.
pub proof fn lemma_cache_stale_read(events: Seq<Option<u32>>)
    ensures
        (forall|i: int| 0 <= i < events.len() ==> events[i] is None) ==> cache_after(events)
            == 0,
        events.len() > 0 && events.last() is None ==> cache_after(events) == cache_after(
            events.drop_last(),
        ),
    decreases events.len(),
{
    if events.len() > 0 {
        lemma_cache_stale_read(events.drop_last());
    }
}

} // verus!
