use vstd::prelude::*;
use crate::types::{Address, Event, EventView, TokenId};

verus! {

/// The notifications that the host is to publish, oldest first.
#[derive(Clone, Debug)]
pub struct EventLog {
    entries: Vec<Event>,
}

impl EventLog {
    /// The notifications, as mathematical values.
    pub closed spec fn entries(&self) -> Seq<EventView> {
        self.entries@.map_values(|e: Event| e@)
    }

    /// No notification.
    pub fn new() -> (log: EventLog)
        ensures
            log.entries() == Seq::<EventView>::empty(),
    {
        let log = EventLog { entries: Vec::new() };
        assert(log.entries() =~= Seq::<EventView>::empty());
        log
    }

    /// How many notifications were recorded.
    pub fn len(&self) -> (n: usize)
        ensures
            n == self.entries().len(),
    {
        self.entries.len()
    }

    /// The notification at place `index`, counted from the oldest.
    pub fn get(&self, index: usize) -> (e: Option<Event>)
        ensures
            match e {
                Some(event) => index < self.entries().len() && event@ == self.entries()[
                    index as int
                ],
                None => index >= self.entries().len(),
            },
    {
        if index < self.entries.len() {
            Some(self.entries[index].duplicate())
        } else {
            None
        }
    }

    fn record(&mut self, event: Event)
        ensures
            final(self).entries() == old(self).entries().push(event@),
    {
        self.entries.push(event);
        assert(self.entries() =~= old(self).entries().push(event@));
    }

    /// Records that `token_id` was minted for `to`.
    pub fn emit_minted(&mut self, to: &Address, token_id: &TokenId)
        ensures
            final(self).entries() == old(self).entries().push(
                (EventView::Minted { to: *to, token_id: *token_id }),
            ),
    {
        self.record(Event::Minted { to: *to, token_id: *token_id });
    }

    /// Records that the achievement `nft_type` was minted for `to` as `token_id`.
    pub fn emit_achievement_minted(&mut self, to: &Address, nft_type: String, token_id: &TokenId)
        ensures
            final(self).entries() == old(self).entries().push(
                (EventView::AchievementMinted { to: *to, nft_type: nft_type@, token_id: *token_id }),
            ),
    {
        self.record(Event::AchievementMinted { to: *to, nft_type, token_id: *token_id });
    }

    /// Records that `from` handed `token_id` to `to`.
    pub fn emit_transferred(&mut self, from: &Address, to: &Address, token_id: &TokenId)
        ensures
            final(self).entries() == old(self).entries().push(
                (EventView::Transferred { from: *from, to: *to, token_id: *token_id }),
            ),
    {
        self.record(Event::Transferred { from: *from, to: *to, token_id: *token_id });
    }
}

} // verus!
