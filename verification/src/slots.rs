//! The slots of the bus: a way to each device that it owns.
//!
//! Whoever holds a slot may change the device in it, take it out or put
//! another in; the rest of the bus is out of reach meanwhile and stays as it
//! is.
use vstd::prelude::*;
use crate::bus::BusInterface;
use crate::device::{DeviceSet, VideoCardDispatch};
use crate::memory::ADDRESS_SPACE;
use crate::mmio::VideoCardId;

verus! {

/// Calls `f` with an identity and a card to work on. Returns the card as the
/// call left it.
pub fn hand_card<D: DeviceSet, F: FnMut(VideoCardId, &mut VideoCardDispatch<D>)>(
    f: &mut F,
    id: VideoCardId,
    card: &mut VideoCardDispatch<D>,
) -> (r: Ghost<VideoCardDispatch<D>>)
    requires
        forall|c: &mut VideoCardDispatch<D>| #[trigger] call_requires(*old(f), (id, c)),
    ensures
        r@ == *final(card),
        *final(f) == *old(f),
        exists|c: &mut VideoCardDispatch<D>|
            {
                &&& *c == *old(card)
                &&& *final(c) == *final(card)
                &&& #[trigger] call_ensures(*old(f), (id, c), ())
            },
{
    f(id, card);
    Ghost(*card)
}

/// `f` was called once with the identity `id` and with the card `card` to
/// work on, and `after` is the card as that call left it.
pub open spec fn card_handed<D: DeviceSet, F: FnMut(VideoCardId, &mut VideoCardDispatch<D>)>(
    f: F,
    id: VideoCardId,
    card: VideoCardDispatch<D>,
    after: VideoCardDispatch<D>,
) -> bool {
    exists|g: &mut F, c: &mut VideoCardDispatch<D>|
        {
            &&& *g == f
            &&& *c == card
            &&& #[trigger] call_ensures(hand_card::<D, F>, (g, id, c), Ghost(after))
        }
}

impl<D: DeviceSet> BusInterface<D> {
    /// The slot of the keyboard.
    pub open(crate) spec fn keyboard_slot(self) -> Option<D::Keyboard> {
        self.keyboard
    }

    /// The slot of the peripheral interface.
    pub open(crate) spec fn ppi_slot(self) -> Option<D::Ppi> {
        self.ppi
    }

    /// The slot of the timer.
    pub open(crate) spec fn pit_slot(self) -> Option<D::Pit> {
        self.pit
    }

    /// The slot of the primary DMA controller.
    pub open(crate) spec fn dma_slot(self) -> Option<D::Dma> {
        self.dma1
    }

    /// The slot of the secondary DMA controller.
    pub open(crate) spec fn dma2_slot(self) -> Option<D::Dma> {
        self.dma2
    }

    /// The slot of the primary interrupt controller.
    pub open(crate) spec fn pic_slot(self) -> Option<D::Pic> {
        self.pic1
    }

    /// The slot of the secondary interrupt controller.
    pub open(crate) spec fn pic2_slot(self) -> Option<D::Pic> {
        self.pic2
    }

    /// The slot of the serial controller.
    pub open(crate) spec fn serial_slot(self) -> Option<D::Serial> {
        self.serial
    }

    /// The slot of the floppy disk controller.
    pub open(crate) spec fn fdc_slot(self) -> Option<D::Fdc> {
        self.fdc
    }

    /// The slot of the hard disk controller.
    pub open(crate) spec fn hdc_slot(self) -> Option<D::Hdc> {
        self.hdc
    }

    /// The slot of the mouse.
    pub open(crate) spec fn mouse_slot(self) -> Option<D::Mouse> {
        self.mouse
    }

    /// Both buses agree in all but the devices in their slots: memory,
    /// mappings, clock, schedule and video cards are the same.
    pub open(crate) spec fn same_but_slots(self, other: Self) -> bool {
        &&& self.same_memory(other)
        &&& self.same_maps(other)
        &&& self.same_clock(other)
        &&& self.same_schedule(other)
        &&& self.videocards == other.videocards
        &&& self.videocard_ids == other.videocard_ids
    }

    /// The slot of the timer, to look at.
    pub fn pit(&self) -> (slot: &Option<D::Pit>)
        ensures
            *slot == self.pit_slot(),
    {
        &self.pit
    }

    /// The slot of the timer.
    pub fn pit_mut(&mut self) -> (slot: &mut Option<D::Pit>)
        ensures
            *slot == old(self).pit_slot(),
            final(self).pit_slot() == *final(slot),
            final(self).same_but_slots(*old(self)),
            final(self).wf() == old(self).wf(),
            final(self).keyboard_slot() == old(self).keyboard_slot(),
            final(self).ppi_slot() == old(self).ppi_slot(),
            final(self).dma_slot() == old(self).dma_slot(),
            final(self).dma2_slot() == old(self).dma2_slot(),
            final(self).pic_slot() == old(self).pic_slot(),
            final(self).pic2_slot() == old(self).pic2_slot(),
            final(self).serial_slot() == old(self).serial_slot(),
            final(self).fdc_slot() == old(self).fdc_slot(),
            final(self).hdc_slot() == old(self).hdc_slot(),
            final(self).mouse_slot() == old(self).mouse_slot(),
    {
        &mut self.pit
    }

    /// The slot of the primary interrupt controller.
    pub fn pic_mut(&mut self) -> (slot: &mut Option<D::Pic>)
        ensures
            *slot == old(self).pic_slot(),
            final(self).pic_slot() == *final(slot),
            final(self).same_but_slots(*old(self)),
            final(self).wf() == old(self).wf(),
            final(self).keyboard_slot() == old(self).keyboard_slot(),
            final(self).ppi_slot() == old(self).ppi_slot(),
            final(self).pit_slot() == old(self).pit_slot(),
            final(self).dma_slot() == old(self).dma_slot(),
            final(self).dma2_slot() == old(self).dma2_slot(),
            final(self).pic2_slot() == old(self).pic2_slot(),
            final(self).serial_slot() == old(self).serial_slot(),
            final(self).fdc_slot() == old(self).fdc_slot(),
            final(self).hdc_slot() == old(self).hdc_slot(),
            final(self).mouse_slot() == old(self).mouse_slot(),
    {
        &mut self.pic1
    }

    /// The slot of the peripheral interface.
    pub fn ppi_mut(&mut self) -> (slot: &mut Option<D::Ppi>)
        ensures
            *slot == old(self).ppi_slot(),
            final(self).ppi_slot() == *final(slot),
            final(self).same_but_slots(*old(self)),
            final(self).wf() == old(self).wf(),
            final(self).keyboard_slot() == old(self).keyboard_slot(),
            final(self).pit_slot() == old(self).pit_slot(),
            final(self).dma_slot() == old(self).dma_slot(),
            final(self).dma2_slot() == old(self).dma2_slot(),
            final(self).pic_slot() == old(self).pic_slot(),
            final(self).pic2_slot() == old(self).pic2_slot(),
            final(self).serial_slot() == old(self).serial_slot(),
            final(self).fdc_slot() == old(self).fdc_slot(),
            final(self).hdc_slot() == old(self).hdc_slot(),
            final(self).mouse_slot() == old(self).mouse_slot(),
    {
        &mut self.ppi
    }

    /// The slot of the primary DMA controller.
    pub fn dma_mut(&mut self) -> (slot: &mut Option<D::Dma>)
        ensures
            *slot == old(self).dma_slot(),
            final(self).dma_slot() == *final(slot),
            final(self).same_but_slots(*old(self)),
            final(self).wf() == old(self).wf(),
            final(self).keyboard_slot() == old(self).keyboard_slot(),
            final(self).ppi_slot() == old(self).ppi_slot(),
            final(self).pit_slot() == old(self).pit_slot(),
            final(self).dma2_slot() == old(self).dma2_slot(),
            final(self).pic_slot() == old(self).pic_slot(),
            final(self).pic2_slot() == old(self).pic2_slot(),
            final(self).serial_slot() == old(self).serial_slot(),
            final(self).fdc_slot() == old(self).fdc_slot(),
            final(self).hdc_slot() == old(self).hdc_slot(),
            final(self).mouse_slot() == old(self).mouse_slot(),
    {
        &mut self.dma1
    }

    /// The slot of the serial controller.
    pub fn serial_mut(&mut self) -> (slot: &mut Option<D::Serial>)
        ensures
            *slot == old(self).serial_slot(),
            final(self).serial_slot() == *final(slot),
            final(self).same_but_slots(*old(self)),
            final(self).wf() == old(self).wf(),
            final(self).keyboard_slot() == old(self).keyboard_slot(),
            final(self).ppi_slot() == old(self).ppi_slot(),
            final(self).pit_slot() == old(self).pit_slot(),
            final(self).dma_slot() == old(self).dma_slot(),
            final(self).dma2_slot() == old(self).dma2_slot(),
            final(self).pic_slot() == old(self).pic_slot(),
            final(self).pic2_slot() == old(self).pic2_slot(),
            final(self).fdc_slot() == old(self).fdc_slot(),
            final(self).hdc_slot() == old(self).hdc_slot(),
            final(self).mouse_slot() == old(self).mouse_slot(),
    {
        &mut self.serial
    }

    /// The slot of the floppy disk controller.
    pub fn fdc_mut(&mut self) -> (slot: &mut Option<D::Fdc>)
        ensures
            *slot == old(self).fdc_slot(),
            final(self).fdc_slot() == *final(slot),
            final(self).same_but_slots(*old(self)),
            final(self).wf() == old(self).wf(),
            final(self).keyboard_slot() == old(self).keyboard_slot(),
            final(self).ppi_slot() == old(self).ppi_slot(),
            final(self).pit_slot() == old(self).pit_slot(),
            final(self).dma_slot() == old(self).dma_slot(),
            final(self).dma2_slot() == old(self).dma2_slot(),
            final(self).pic_slot() == old(self).pic_slot(),
            final(self).pic2_slot() == old(self).pic2_slot(),
            final(self).serial_slot() == old(self).serial_slot(),
            final(self).hdc_slot() == old(self).hdc_slot(),
            final(self).mouse_slot() == old(self).mouse_slot(),
    {
        &mut self.fdc
    }

    /// The slot of the hard disk controller.
    pub fn hdc_mut(&mut self) -> (slot: &mut Option<D::Hdc>)
        ensures
            *slot == old(self).hdc_slot(),
            final(self).hdc_slot() == *final(slot),
            final(self).same_but_slots(*old(self)),
            final(self).wf() == old(self).wf(),
            final(self).keyboard_slot() == old(self).keyboard_slot(),
            final(self).ppi_slot() == old(self).ppi_slot(),
            final(self).pit_slot() == old(self).pit_slot(),
            final(self).dma_slot() == old(self).dma_slot(),
            final(self).dma2_slot() == old(self).dma2_slot(),
            final(self).pic_slot() == old(self).pic_slot(),
            final(self).pic2_slot() == old(self).pic2_slot(),
            final(self).serial_slot() == old(self).serial_slot(),
            final(self).fdc_slot() == old(self).fdc_slot(),
            final(self).mouse_slot() == old(self).mouse_slot(),
    {
        &mut self.hdc
    }

    /// The slot of the mouse.
    pub fn mouse_mut(&mut self) -> (slot: &mut Option<D::Mouse>)
        ensures
            *slot == old(self).mouse_slot(),
            final(self).mouse_slot() == *final(slot),
            final(self).same_but_slots(*old(self)),
            final(self).wf() == old(self).wf(),
            final(self).keyboard_slot() == old(self).keyboard_slot(),
            final(self).ppi_slot() == old(self).ppi_slot(),
            final(self).pit_slot() == old(self).pit_slot(),
            final(self).dma_slot() == old(self).dma_slot(),
            final(self).dma2_slot() == old(self).dma2_slot(),
            final(self).pic_slot() == old(self).pic_slot(),
            final(self).pic2_slot() == old(self).pic2_slot(),
            final(self).serial_slot() == old(self).serial_slot(),
            final(self).fdc_slot() == old(self).fdc_slot(),
            final(self).hdc_slot() == old(self).hdc_slot(),
    {
        &mut self.mouse
    }

    /// The keyboard, if one is installed.
    pub fn keyboard_mut(&mut self) -> (keyboard: Option<&mut D::Keyboard>)
        ensures
            keyboard is Some == old(self).keyboard_slot() is Some,
            keyboard matches Some(k) ==> Some(*k) == old(self).keyboard_slot() && final(self).keyboard_slot() == Some(*final(k)),
            keyboard is None ==> *final(self) == *old(self),
            final(self).same_but_slots(*old(self)),
            final(self).wf() == old(self).wf(),
            final(self).ppi_slot() == old(self).ppi_slot(),
            final(self).pit_slot() == old(self).pit_slot(),
            final(self).dma_slot() == old(self).dma_slot(),
            final(self).dma2_slot() == old(self).dma2_slot(),
            final(self).pic_slot() == old(self).pic_slot(),
            final(self).pic2_slot() == old(self).pic2_slot(),
            final(self).serial_slot() == old(self).serial_slot(),
            final(self).fdc_slot() == old(self).fdc_slot(),
            final(self).hdc_slot() == old(self).hdc_slot(),
            final(self).mouse_slot() == old(self).mouse_slot(),
    {
        self.keyboard.as_mut()
    }

    /// The video card installed under an identity, if there is one, to work
    /// on.
    pub fn video_mut(&mut self, vid: &VideoCardId) -> (r: Option<&mut VideoCardDispatch<D>>)
        requires
            old(self).wf(),
        ensures
            final(self).wf(),
            r is Some <==> old(self).live_card_index(*vid) is Some,
            r is None ==> *final(self) == *old(self),
            r matches Some(card) ==> {
                &&& old(self).live_card_index(*vid) matches Some(i)
                &&& i < old(self).cards().len()
                &&& old(self).cards()[i as int].id == *vid
                &&& *card == old(self).cards()[i as int].card
                &&& final(self).cards() == old(self).cards().update(
                    i as int,
                    crate::device::VideoCardSlot { id: *vid, card: *final(card) },
                )
            },
            final(self).same_memory(*old(self)),
            final(self).same_maps(*old(self)),
            final(self).same_clock(*old(self)),
            final(self).same_schedule(*old(self)),
            final(self).same_slots(*old(self)),
            final(self).card_ids() == old(self).card_ids(),
    {
        match self.find_card(*vid) {
            Some(i) => {
                if self.videocards[i].card.is_live() {
                    Some(&mut self.videocards[i].card)
                } else {
                    None
                }
            },
            None => None,
        }
    }

    /// The primary video card, to work on: the card under the identity that
    /// was installed first, if there is one. Whatever is done to the card is
    /// done to the card in its place on the bus; nothing else changes.
    pub fn primary_video_mut(&mut self) -> (r: Option<&mut VideoCardDispatch<D>>)
        requires
            old(self).wf(),
        ensures
            final(self).wf(),
            r is Some <==> old(self).primary_card_index() is Some,
            r matches Some(card) ==> {
                &&& old(self).primary_card_index() matches Some(i)
                &&& *card == old(self).cards()[i as int].card
                &&& final(self).cards() == old(self).cards().update(
                    i as int,
                    crate::device::VideoCardSlot { id: old(self).cards()[i as int].id, card: *final(card) },
                )
            },
            old(self).card_ids().len() == 0 ==> r is None,
            r is None ==> *final(self) == *old(self),
            final(self).same_memory(*old(self)),
            final(self).same_maps(*old(self)),
            final(self).same_clock(*old(self)),
            final(self).same_schedule(*old(self)),
            final(self).same_slots(*old(self)),
            final(self).card_ids() == old(self).card_ids(),
    {
        if self.videocard_ids.len() > 0 {
            let vid = self.videocard_ids[0];
            self.video_mut(&vid)
        } else {
            None
        }
    }

    /// Calls `f` with each installed video card in turn, in the order in
    /// which the cards were installed. Every card is handed to `f` with its
    /// identity and stays in its place under that identity; nothing but the
    /// cards changes.
    pub fn for_each_videocard<F: FnMut(VideoCardId, &mut VideoCardDispatch<D>)>(&mut self, mut f: F)
        requires
            old(self).wf(),
            forall|id: VideoCardId, card: &mut VideoCardDispatch<D>| #[trigger] call_requires(f, (id, card)),
        ensures
            final(self).wf(),
            final(self).same_memory(*old(self)),
            final(self).same_maps(*old(self)),
            final(self).same_clock(*old(self)),
            final(self).same_schedule(*old(self)),
            final(self).same_slots(*old(self)),
            final(self).card_ids() == old(self).card_ids(),
            final(self).cards().len() == old(self).cards().len(),
            forall|i: int|
                0 <= i < old(self).cards().len() ==> (#[trigger] final(self).cards()[i]).id == old(self).cards()[i].id,
            forall|i: int|
                0 <= i < old(self).cards().len() ==> card_handed(
                    f,
                    (#[trigger] old(self).cards()[i]).id,
                    old(self).cards()[i].card,
                    final(self).cards()[i].card,
                ),
            old(self).cards().len() == 0 ==> *final(self) == *old(self),
    {
        let ghost f0 = f;
        let n = self.videocards.len();
        let mut i: usize = 0;
        while i < n
            invariant
                i <= n,
                f == f0,
                n == self.videocards@.len(),
                self.wf(),
                self.same_memory(*old(self)),
                self.same_maps(*old(self)),
                self.same_clock(*old(self)),
                self.same_schedule(*old(self)),
                self.same_slots(*old(self)),
                self.videocard_ids == old(self).videocard_ids,
                self.videocards@.len() == old(self).videocards@.len(),
                n == 0 ==> *self == *old(self),
                forall|k: int|
                    0 <= k < n ==> (#[trigger] self.videocards@[k]).id == old(self).videocards@[k].id,
                forall|k: int| i <= k < n ==> #[trigger] self.videocards@[k] == old(self).videocards@[k],
                forall|k: int|
                    0 <= k < i ==> card_handed(
                        f0,
                        (#[trigger] old(self).videocards@[k]).id,
                        old(self).videocards@[k].card,
                        self.videocards@[k].card,
                    ),
                forall|id: VideoCardId, card: &mut VideoCardDispatch<D>| #[trigger] call_requires(f, (id, card)),
            decreases n - i,
        {
            let id = self.videocards[i].id;
            let ghost before = self.videocards@;
            let Ghost(after) = hand_card::<D, F>(&mut f, id, &mut self.videocards[i].card);
            proof {
                assert(card_handed(f0, id, before[i as int].card, self.videocards@[i as int].card));
                assert(forall|k: int| 0 <= k < n && k != i ==> self.videocards@[k] == before[k]);
            }
            i += 1;
        }
    }

    /// The `len` bytes of memory from `start` on, whatever is mapped there.
    pub fn get_slice_at(&self, start: usize, len: usize) -> (bytes: &[u8])
        requires
            self.wf(),
            start + len <= ADDRESS_SPACE,
        ensures
            bytes@ == self.mem().subrange(start as int, start + len),
    {
        vstd::slice::slice_subrange(self.memory.as_slice(), start, start + len)
    }
}

} // verus!
