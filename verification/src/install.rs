//! Building the machine: the devices are made, their ports are mapped, and
//! the memory of the video cards is registered.
use vstd::prelude::*;
use std::collections::HashMap;
use crate::bus::BusInterface;
use crate::config::{
    conventional_memory_valid, normalize_conventional_memory, rounded_conventional_memory,
    ClockingMode, HardDiskControllerType, InstallError, MachineConfiguration, MachineDescriptor,
    SerialControllerType, SerialMouseType, DRIVE_TYPE2_DIP, HDC_DRIVE_COUNT,
};
use crate::device::{
    dma_was_reset, fdc_made, gate_tied, hdc_made, keyboard_made, lists_ports, mouse_made,
    pic_was_reset, ppi_made, reset_dma, reset_pic, reset_timer, set_typematic, tie_channel_gate,
    timer_made, timer_was_reset, typematic_set, DeviceSet, DmaDevice, FloppyDevice,
    HardDiskDevice, InterruptController, IoDevice, IoDeviceType, KeyboardDevice, MouseDevice,
    PpiDevice, SerialDevice, TimerDevice, VideoCard, VideoCardDispatch, VideoCardSlot,
};
use crate::memory::MemRangeDescriptor;
use crate::mmio::{apertures, video_apertures, MmioDeviceType, VideoCardId, VideoType};
use crate::timing::update_timing_table;

verus! {

/// A port map after a device's ports are mapped to it: each of the device's
/// ports names the device, every other port is mapped as before.
pub open spec fn ports_mapped(
    map: Map<u16, IoDeviceType>,
    ports: Seq<u16>,
    device: IoDeviceType,
) -> Map<u16, IoDeviceType> {
    Map::new(
        |p: u16| map.contains_key(p) || ports.contains(p),
        |p: u16|
            if ports.contains(p) {
                device
            } else {
                map[p]
            },
    )
}

/// Maps each port of a list to a device.
pub fn map_ports(io_map: &mut HashMap<u16, IoDeviceType>, ports: &Vec<u16>, device: IoDeviceType)
    ensures
        final(io_map)@ == ports_mapped(old(io_map)@, ports@, device),
{
    let n = ports.len();
    let mut i: usize = 0;
    assert(io_map@ =~= ports_mapped(old(io_map)@, ports@.subrange(0, 0), device));
    while i < n
        invariant
            i <= n,
            n == ports@.len(),
            io_map@ == ports_mapped(old(io_map)@, ports@.subrange(0, i as int), device),
        decreases n - i,
    {
        let port = ports[i];
        io_map.insert(port, device);
        proof {
            let done = ports@.subrange(0, i as int);
            let next = ports@.subrange(0, i + 1);
            assert(next[i as int] == port);
            assert forall|p: u16| next.contains(p) <==> (done.contains(p) || p == port) by {
                if done.contains(p) {
                    let k = choose|k: int| 0 <= k < done.len() && done[k] == p;
                    assert(next[k] == p);
                }
                if next.contains(p) && p != port {
                    let k = choose|k: int| 0 <= k < next.len() && next[k] == p;
                    assert(done[k] == p);
                }
            }
            assert(io_map@ =~= ports_mapped(old(io_map)@, next, device));
        }
        i += 1;
    }
    assert(ports@.subrange(0, n as int) =~= ports@);
}

/// The port map `after` is the port map `before` with the ports of the
/// device `dev` mapped to `tag`.
pub open spec fn device_mapped<D: DeviceSet, T: IoDevice<D>>(
    before: Map<u16, IoDeviceType>,
    dev: T,
    tag: IoDeviceType,
    after: Map<u16, IoDeviceType>,
) -> bool {
    exists|ports: Vec<u16>| #[trigger] lists_ports::<D, T>(dev, ports) && after == ports_mapped(before, ports@, tag)
}

/// What installing a device that may or may not be wanted makes of its slot
/// and of the port map: a device that is wanted is in the slot afterwards,
/// with its ports mapped to `tag`; else slot and port map stay.
pub open spec fn slot_mapped<D: DeviceSet, T: IoDevice<D>>(
    before: Map<u16, IoDeviceType>,
    wanted: bool,
    slot: Option<T>,
    slot_after: Option<T>,
    tag: IoDeviceType,
    after: Map<u16, IoDeviceType>,
) -> bool {
    if wanted {
        slot_after matches Some(dev) && device_mapped::<D, T>(before, dev, tag, after)
    } else {
        slot_after == slot && after == before
    }
}

/// The kinds of the video cards that the configuration lists, in order.
pub open spec fn configured_video_types(config: MachineConfiguration) -> Seq<VideoType> {
    Seq::new(config.video@.len(), |k: int| config.video@[k].video_type)
}

/// The number of floppy drives that the configuration lists, held at
/// `u32::MAX`.
pub open spec fn configured_floppies(config: MachineConfiguration) -> u32 {
    match config.fdc {
        Some(fdc) => if fdc.drives > 0xFFFF_FFFF {
            u32::MAX
        } else {
            fdc.drives as u32
        },
        None => 0,
    }
}

/// The identities of the first `n` video cards that the configuration lists.
pub open spec fn configured_cards(config: MachineConfiguration, n: int) -> Seq<VideoCardId> {
    Seq::new(n as nat, |k: int| configured_card(config, k))
}

/// The video card that the configuration lists at position `k`.
pub open spec fn configured_card(config: MachineConfiguration, k: int) -> VideoCardId {
    VideoCardId { idx: k as usize, vtype: config.video@[k].video_type }
}

impl<D: DeviceSet> BusInterface<D> {
    /// A live card of the kind `vtype` is installed under the identity `vid`.
    pub open(crate) spec fn holds_card(self, vid: VideoCardId, vtype: VideoType) -> bool {
        exists|i: int|
            0 <= i < self.videocards@.len() && (#[trigger] self.videocards@[i]).id == vid
                && self.videocards@[i].card.kind() == Some(vtype)
    }

    /// The card `card` is installed under the identity `vid`.
    pub open(crate) spec fn holds_the_card(self, vid: VideoCardId, card: VideoCardDispatch<D>) -> bool {
        exists|i: int|
            0 <= i < self.videocards@.len() && #[trigger] self.videocards@[i] == (VideoCardSlot {
                id: vid,
                card,
            })
    }

    /// The range `d` is registered for the device `device`.
    pub open(crate) spec fn registered(self, d: MemRangeDescriptor, device: MmioDeviceType) -> bool {
        self.mmio_map@.contains((d, device))
    }

    /// A primary interrupt controller is installed.
    pub open(crate) spec fn has_pic(self) -> bool {
        self.pic1 is Some
    }

    /// A floppy disk controller is installed.
    pub open(crate) spec fn has_fdc(self) -> bool {
        self.fdc is Some
    }

    /// A hard disk controller is installed.
    pub open(crate) spec fn has_hdc(self) -> bool {
        self.hdc is Some
    }

    /// A serial controller is installed.
    pub open(crate) spec fn has_serial(self) -> bool {
        self.serial is Some
    }

    /// A mouse is installed.
    pub open(crate) spec fn has_mouse(self) -> bool {
        self.mouse is Some
    }

    /// The identities of the installed video cards, in the order in which
    /// they were installed.
    pub open(crate) spec fn card_ids(self) -> Seq<VideoCardId> {
        self.videocard_ids@
    }

    /// Installs a video card under an identity. A card that was installed
    /// under the same identity is replaced.
    pub fn insert_card(&mut self, id: VideoCardId, card: VideoCardDispatch<D>)
        requires
            old(self).wf(),
        ensures
            final(self).wf(),
            final(self).same_memory(*old(self)),
            final(self).same_maps(*old(self)),
            final(self).same_clock(*old(self)),
            final(self).same_schedule(*old(self)),
            final(self).same_slots(*old(self)),
            final(self).card_ids() == old(self).card_ids().push(id),
            final(self).holds_the_card(id, card),
            card.kind() matches Some(vtype) ==> final(self).holds_card(id, vtype),
            forall|vid: VideoCardId, vtype: VideoType|
                vid != id && #[trigger] old(self).holds_card(vid, vtype) ==> final(self).holds_card(
                    vid,
                    vtype,
                ),
    {
        let ghost before = self.videocards@;
        match self.find_card(id) {
            Some(i) => {
                self.videocards[i] = VideoCardSlot { id, card };
                proof {
                    let after = self.videocards@;
                    assert(after[i as int].id == id);
                    assert(after[i as int] == (VideoCardSlot { id, card }));
                    assert forall|vid: VideoCardId, vtype: VideoType|
                        vid != id && #[trigger] old(self).holds_card(vid, vtype) implies self.holds_card(
                        vid,
                        vtype,
                    ) by {
                        let k = choose|k: int|
                            0 <= k < before.len() && (#[trigger] before[k]).id == vid && before[k].card.kind()
                                == Some(vtype);
                        assert(after[k] == before[k]);
                    }
                }
            },
            None => {
                self.videocards.push(VideoCardSlot { id, card });
                proof {
                    let after = self.videocards@;
                    let last = before.len() as int;
                    assert(after[last].id == id);
                    assert(after[last] == (VideoCardSlot { id, card }));
                    assert forall|a: int, b: int| 0 <= a < b < after.len() implies (#[trigger] after[a]).id
                        != (#[trigger] after[b]).id by {
                        if b < last {
                            assert(after[a] == before[a] && after[b] == before[b]);
                        } else {
                            assert(after[a] == before[a]);
                        }
                    }
                    assert forall|vid: VideoCardId, vtype: VideoType|
                        vid != id && #[trigger] old(self).holds_card(vid, vtype) implies self.holds_card(
                        vid,
                        vtype,
                    ) by {
                        let k = choose|k: int|
                            0 <= k < before.len() && (#[trigger] before[k]).id == vid && before[k].card.kind()
                                == Some(vtype);
                        assert(after[k] == before[k]);
                    }
                }
            },
        }
        self.videocard_ids.push(id);
    }

    /// Lists the identities of the installed video cards, in the order in
    /// which they were installed.
    pub fn enumerate_videocards(&self) -> (ids: Vec<VideoCardId>)
        ensures
            ids@ == self.card_ids(),
    {
        self.videocard_ids.clone()
    }

    /// The position of the card that is installed under the identity `vid`
    /// and is a card indeed, if there is one.
    pub open(crate) spec fn live_card_index(self, vid: VideoCardId) -> Option<usize> {
        match self.card_index(vid) {
            Some(i) => if self.videocards@[i as int].card.live() {
                Some(i)
            } else {
                None
            },
            None => None,
        }
    }

    /// The position of the primary video card: the card under the identity
    /// that was installed first, if that is a card indeed.
    pub open(crate) spec fn primary_card_index(self) -> Option<usize> {
        if self.videocard_ids@.len() > 0 {
            self.live_card_index(self.videocard_ids@[0])
        } else {
            None
        }
    }

    /// The video card installed under an identity, if there is one.
    pub fn video(&self, vid: &VideoCardId) -> (r: Option<&VideoCardDispatch<D>>)
        requires
            self.wf(),
        ensures
            r == (match self.live_card_index(*vid) {
                Some(i) => Some(&self.cards()[i as int].card),
                None => None,
            }),
            r matches Some(card) ==> card.live(),
    {
        match self.find_card(*vid) {
            Some(i) => {
                if self.videocards[i].card.is_live() {
                    Some(&self.videocards[i].card)
                } else {
                    None
                }
            },
            None => None,
        }
    }

    /// The primary video card: the card under the identity that was
    /// installed first, if there is one.
    pub fn primary_video(&self) -> (r: Option<&VideoCardDispatch<D>>)
        requires
            self.wf(),
        ensures
            r == (match self.primary_card_index() {
                Some(i) => Some(&self.cards()[i as int].card),
                None => None,
            }),
            self.card_ids().len() == 0 ==> r is None,
            r matches Some(card) ==> card.live(),
    {
        if self.videocard_ids.len() > 0 {
            self.video(&self.videocard_ids[0])
        } else {
            None
        }
    }
}

impl<D: DeviceSet> BusInterface<D> where
    D::Keyboard: KeyboardDevice,
    D::Ppi: PpiDevice<D>,
    D::Pit: TimerDevice<D>,
    D::Dma: DmaDevice<D>,
    D::Pic: InterruptController<D>,
    D::Serial: SerialDevice<D>,
    D::Fdc: FloppyDevice<D>,
    D::Hdc: HardDiskDevice<D>,
    D::Mouse: MouseDevice<D>,
    D::Mda: VideoCard<D>,
    D::Cga: VideoCard<D>,
    D::Ega: VideoCard<D>,
    D::Vga: VideoCard<D>,
 {
    /// The bus `handed` is this bus made ready for the timer `timer`, which
    /// is not in its slot yet. Conventional memory has its configured size,
    /// rounded. If the machine has a peripheral interface, one was made with
    /// its switches set for the memory, the video cards and the floppy drives
    /// of the configuration, its ports are mapped and it is in its slot. The
    /// timer was made of the machine's model for its crystal and divisor, and
    /// its ports are mapped. Nothing else has changed.
    pub open(crate) spec fn prepared(
        self,
        handed: Self,
        timer: D::Pit,
        desc: MachineDescriptor,
        config: MachineConfiguration,
    ) -> bool {
        let size = rounded_conventional_memory(config.conventional_memory) as u32;
        &&& handed.wf()
        &&& timer_made::<D, D::Pit>(desc.pit_type, desc.timer_clock(), desc.timer_divisor, timer)
        &&& handed == (BusInterface {
            conventional_size: size as usize,
            ppi: handed.ppi,
            io_map: handed.io_map,
            ..self
        })
        &&& desc.have_ppi ==> (handed.ppi matches Some(ppi) && exists|types: Vec<VideoType>|
            types@ == configured_video_types(config) && #[trigger] ppi_made::<D, D::Ppi>(
                desc.machine_type,
                size,
                false,
                types,
                configured_floppies(config),
                ppi,
            ))
        &&& exists|with_ppi: Map<u16, IoDeviceType>|
            {
                &&& #[trigger] slot_mapped::<D, D::Ppi>(
                    self.io_map@,
                    desc.have_ppi,
                    self.ppi,
                    handed.ppi,
                    IoDeviceType::Ppi,
                    with_ppi,
                )
                &&& device_mapped::<D, D::Pit>(with_ppi, timer, IoDeviceType::Pit, handed.io_map@)
            }
    }

    /// The port map of `after` is the port map of this bus with the ports of
    /// the devices mapped that were installed after the timer, in the order
    /// of their installation: primary DMA controller, primary interrupt
    /// controller, then floppy disk controller, hard disk controller and
    /// serial controller as far as they are configured. The maps between the
    /// steps are `m1` to `m4`.
    pub open(crate) spec fn ports_chained(
        self,
        after: Self,
        config: MachineConfiguration,
        m1: Map<u16, IoDeviceType>,
        m2: Map<u16, IoDeviceType>,
        m3: Map<u16, IoDeviceType>,
        m4: Map<u16, IoDeviceType>,
    ) -> bool {
        &&& after.dma1 matches Some(dma) && device_mapped::<D, D::Dma>(
            self.io_map@,
            dma,
            IoDeviceType::DmaPrimary,
            m1,
        )
        &&& after.pic1 matches Some(pic) && device_mapped::<D, D::Pic>(m1, pic, IoDeviceType::PicPrimary, m2)
        &&& slot_mapped::<D, D::Fdc>(
            m2,
            config.fdc is Some,
            self.fdc,
            after.fdc,
            IoDeviceType::FloppyController,
            m3,
        )
        &&& slot_mapped::<D, D::Hdc>(
            m3,
            config.hdc is Some,
            self.hdc,
            after.hdc,
            IoDeviceType::HardDiskController,
            m4,
        )
        &&& slot_mapped::<D, D::Serial>(
            m4,
            config.serial@.len() > 0,
            self.serial,
            after.serial,
            IoDeviceType::Serial,
            after.io_map@,
        )
    }

    /// The bus `after` is this bus with its slots filled: the timer `timer`,
    /// a primary DMA controller and a primary interrupt controller are in
    /// their slots; keyboard, floppy disk controller, hard disk controller and
    /// serial controller as far as they are configured; a mouse if one is
    /// configured and there is a serial controller. A slot that nothing is
    /// configured for stays as it is. The ports of the devices are mapped,
    /// and the bus describes the machine and is clocked by its crystal.
    pub open(crate) spec fn slots_filled(
        self,
        after: Self,
        timer: D::Pit,
        desc: MachineDescriptor,
        config: MachineConfiguration,
    ) -> bool {
        &&& after.wf()
        &&& after == (BusInterface {
            pit: Some(timer),
            dma1: after.dma1,
            pic1: after.pic1,
            keyboard: after.keyboard,
            fdc: after.fdc,
            hdc: after.hdc,
            serial: after.serial,
            mouse: after.mouse,
            io_map: after.io_map,
            crystal_hz: desc.system_crystal,
            timing_table: after.timing_table,
            machine_desc: Some(desc),
            ..self
        })
        &&& exists|
            m1: Map<u16, IoDeviceType>,
            m2: Map<u16, IoDeviceType>,
            m3: Map<u16, IoDeviceType>,
            m4: Map<u16, IoDeviceType>,
        | #[trigger] self.ports_chained(after, config, m1, m2, m3, m4)
        &&& match config.keyboard {
            Some(kb) => after.keyboard matches Some(keyboard) && keyboard_made::<D::Keyboard>(
                kb.kb_type,
                Some(kb.typematic),
                kb.typematic_delay,
                kb.typematic_rate,
                keyboard,
            ),
            None => after.keyboard == self.keyboard,
        }
        &&& config.fdc matches Some(fdc) ==> (after.fdc matches Some(dev) && fdc_made::<D, D::Fdc>(
            fdc.drives,
            dev,
        ))
        &&& config.hdc is Some ==> (after.hdc matches Some(dev) && hdc_made::<D, D::Hdc>(
            HDC_DRIVE_COUNT,
            DRIVE_TYPE2_DIP,
            dev,
        ))
        &&& match config.serial_mouse {
            Some(pointer) => if after.serial is Some {
                after.mouse matches Some(dev) && mouse_made::<D, D::Mouse>(pointer.port, dev)
            } else {
                after.mouse == self.mouse
            },
            None => after.mouse == self.mouse,
        }
    }

    /// The port map `after` is the port map `before` with the ports of the
    /// video card `card` mapped to its identity.
    pub open(crate) spec fn card_mapped(
        before: Map<u16, IoDeviceType>,
        card: VideoCardDispatch<D>,
        id: VideoCardId,
        after: Map<u16, IoDeviceType>,
    ) -> bool {
        exists|ports: Vec<u16>|
            #[trigger] card.lists_ports(ports) && after == ports_mapped(
                before,
                ports@,
                IoDeviceType::Video(id),
            )
    }

    /// The bus `after` is this bus with a video card installed under the
    /// identity `id`: a card of the identity's kind, made with the default
    /// clocking and without frame debugging, is installed under it,
    /// its ports are mapped to it, its memory is registered for it, and the
    /// identity is the last of those listed. Cards under other identities
    /// and ranges registered before stay; so do the devices in the slots,
    /// the clock, the schedule and the contents of memory.
    pub open(crate) spec fn card_installed(self, after: Self, id: VideoCardId) -> bool {
        &&& after.wf()
        &&& after.same_slots(self)
        &&& after.same_clock(self)
        &&& after.same_schedule(self)
        &&& after.memory@ == self.memory@
        &&& after.conventional_size == self.conventional_size
        &&& after.videocard_ids@ == self.videocard_ids@.push(id)
        &&& after.holds_card(id, id.vtype)
        &&& exists|card: VideoCardDispatch<D>|
            {
                &&& card.kind() == Some(id.vtype)
                &&& #[trigger] after.holds_the_card(id, card)
                &&& card.made_with(ClockingMode::Default, false)
                &&& Self::card_mapped(self.io_map@, card, id, after.io_map@)
            }
        &&& forall|j: int|
            0 <= j < apertures(id.vtype).len() ==> after.registered(
                #[trigger] apertures(id.vtype)[j],
                MmioDeviceType::Video(id),
            )
        &&& forall|d: MemRangeDescriptor, device: MmioDeviceType| #[trigger]
            self.registered(d, device) ==> after.registered(d, device)
        &&& forall|vid: VideoCardId, vtype: VideoType|
            vid != id && #[trigger] self.holds_card(vid, vtype) ==> after.holds_card(vid, vtype)
    }

    /// The bus `after` is this bus with the first `n` video cards of the
    /// configuration installed, one after the other.
    pub open(crate) spec fn cards_installed(self, after: Self, config: MachineConfiguration, n: nat) -> bool
        decreases n,
    {
        if n == 0 {
            after == self
        } else {
            exists|before_last: Self|
                self.cards_installed(before_last, config, (n - 1) as nat)
                    && #[trigger] before_last.card_installed(after, configured_card(config, n - 1))
        }
    }

    /// The machine was built on this bus in these steps, and `after` is the
    /// bus with the machine built. The bus was made ready for the timer
    /// `timer` and was `handed` to it, to tie the gates of its first two
    /// channels high, each once: the first call left the timer as
    /// `timer_between` and the bus as `between`, the second left them as
    /// `timer_gated` and `gated`. On `gated` the slots were filled, with
    /// `timer_gated` as the timer, which gave `slotted`, and then the video
    /// cards were installed.
    pub open(crate) spec fn install_chain(
        self,
        after: Self,
        desc: MachineDescriptor,
        config: MachineConfiguration,
        handed: Self,
        timer: D::Pit,
        between: Self,
        timer_between: D::Pit,
        gated: Self,
        timer_gated: D::Pit,
        slotted: Self,
    ) -> bool {
        &&& self.prepared(handed, timer, desc, config)
        &&& gate_tied::<D, D::Pit>(timer, 0, true, handed, timer_between, between)
        &&& between.wf()
        &&& gate_tied::<D, D::Pit>(timer_between, 1, true, between, timer_gated, gated)
        &&& gated.wf()
        &&& gated.slots_filled(slotted, timer_gated, desc, config)
        &&& slotted.cards_installed(after, config, config.video@.len())
        &&& after.videocard_ids@ == gated.videocard_ids@ + configured_cards(
            config,
            config.video@.len() as int,
        )
    }

    /// The bus `after` is this bus with the machine built on it.
    pub open(crate) spec fn installed(
        self,
        after: Self,
        desc: MachineDescriptor,
        config: MachineConfiguration,
    ) -> bool {
        exists|
            handed: Self,
            timer: D::Pit,
            between: Self,
            timer_between: D::Pit,
            gated: Self,
            timer_gated: D::Pit,
            slotted: Self,
        | #[trigger]
            self.install_chain(
                after,
                desc,
                config,
                handed,
                timer,
                between,
                timer_between,
                gated,
                timer_gated,
                slotted,
            )
    }

    /// Makes a video card of a kind and maps its ports to its identity.
    fn make_video_card(&mut self, video_id: VideoCardId) -> (card: VideoCardDispatch<D>)
        requires
            old(self).wf(),
        ensures
            final(self).wf(),
            card.kind() == Some(video_id.vtype),
            final(self).same_memory(*old(self)),
            final(self).same_clock(*old(self)),
            final(self).same_schedule(*old(self)),
            final(self).same_devices(*old(self)),
            final(self).mmio_ranges() == old(self).mmio_ranges(),
            Self::card_mapped(old(self).io_map@, card, video_id, final(self).io_map@),
            card.made_with(ClockingMode::Default, false),
    {
        let clock_mode = ClockingMode::Default;
        let video_frame_debug = false;
        match video_id.vtype {
            VideoType::MDA => {
                let mda = D::Mda::new(clock_mode, video_frame_debug);
                let port_list = mda.port_list();
                map_ports(&mut self.io_map, &port_list, IoDeviceType::Video(video_id));
                assert((VideoCardDispatch::<D>::Mda(mda)).lists_ports(port_list));
                VideoCardDispatch::Mda(mda)
            },
            VideoType::CGA => {
                let cga = D::Cga::new(clock_mode, video_frame_debug);
                let port_list = cga.port_list();
                map_ports(&mut self.io_map, &port_list, IoDeviceType::Video(video_id));
                assert((VideoCardDispatch::<D>::Cga(cga)).lists_ports(port_list));
                VideoCardDispatch::Cga(cga)
            },
            VideoType::EGA => {
                let ega = D::Ega::new(clock_mode, video_frame_debug);
                let port_list = ega.port_list();
                map_ports(&mut self.io_map, &port_list, IoDeviceType::Video(video_id));
                assert((VideoCardDispatch::<D>::Ega(ega)).lists_ports(port_list));
                VideoCardDispatch::Ega(ega)
            },
            VideoType::VGA => {
                let vga = D::Vga::new(clock_mode, video_frame_debug);
                let port_list = vga.port_list();
                map_ports(&mut self.io_map, &port_list, IoDeviceType::Video(video_id));
                assert((VideoCardDispatch::<D>::Vga(vga)).lists_ports(port_list));
                VideoCardDispatch::Vga(vga)
            },
        }
    }

    /// Registers the memory that a video card of a kind answers to.
    fn register_video_memory(&mut self, video_id: VideoCardId)
        requires
            old(self).wf(),
        ensures
            final(self).wf(),
            final(self).same_clock(*old(self)),
            final(self).same_schedule(*old(self)),
            final(self).same_devices(*old(self)),
            final(self).conventional() == old(self).conventional(),
            final(self).mem() == old(self).mem(),
            final(self).io_ports() == old(self).io_ports(),
            forall|j: int|
                0 <= j < apertures(video_id.vtype).len() ==> final(self).registered(
                    #[trigger] apertures(video_id.vtype)[j],
                    MmioDeviceType::Video(video_id),
                ),
            forall|d: MemRangeDescriptor, device: MmioDeviceType| #[trigger]
                old(self).registered(d, device) ==> final(self).registered(d, device),
    {
        let ranges = video_apertures(video_id.vtype);
        let n = ranges.len();
        let mut j: usize = 0;
        while j < n
            invariant
                j <= n,
                n == ranges@.len(),
                ranges@ == apertures(video_id.vtype),
                forall|i: int| 0 <= i < ranges@.len() ==> crate::mmio::registrable(#[trigger] ranges@[i]),
                self.wf(),
                self.same_clock(*old(self)),
                self.same_schedule(*old(self)),
                self.same_devices(*old(self)),
                self.conventional_size == old(self).conventional_size,
                self.memory@ == old(self).memory@,
                self.io_map@ == old(self).io_map@,
                forall|i: int|
                    0 <= i < j ==> self.registered(#[trigger] ranges@[i], MmioDeviceType::Video(video_id)),
                forall|d: MemRangeDescriptor, device: MmioDeviceType| #[trigger]
                    old(self).registered(d, device) ==> self.registered(d, device),
            decreases n - j,
        {
            let ghost before = self.mmio_map@;
            self.register_map(MmioDeviceType::Video(video_id), ranges[j]);
            proof {
                let after = self.mmio_map@;
                assert(after[before.len() as int] == (ranges@[j as int], MmioDeviceType::Video(video_id)));
                assert forall|x: (MemRangeDescriptor, MmioDeviceType)|
                    before.contains(x) implies after.contains(x) by {
                    let k = choose|k: int| 0 <= k < before.len() && before[k] == x;
                    assert(after[k] == x);
                }
            }
            j += 1;
        }
    }

    /// Makes the bus ready for the timer: sets the size of conventional
    /// memory, installs the peripheral interface if the machine has one, and
    /// makes the timer and maps its ports. Returns the timer.
    fn prepare_timer(
        &mut self,
        machine_desc: &MachineDescriptor,
        machine_config: &MachineConfiguration,
        conventional_memory: u32,
    ) -> (pit: D::Pit)
        requires
            old(self).wf(),
            conventional_memory == rounded_conventional_memory(machine_config.conventional_memory),
        ensures
            final(self).wf(),
            old(self).prepared(*final(self), pit, *machine_desc, *machine_config),
    {
        let mut video_types: Vec<VideoType> = Vec::new();
        let mut v: usize = 0;
        while v < machine_config.video.len()
            invariant
                v <= machine_config.video@.len(),
                video_types@.len() == v,
                forall|k: int| 0 <= k < v ==> video_types@[k] == machine_config.video@[k].video_type,
            decreases machine_config.video@.len() - v,
        {
            video_types.push(machine_config.video[v].video_type);
            v += 1;
        }
        assert(video_types@ =~= configured_video_types(*machine_config));

        let num_floppies: u32 = match machine_config.fdc {
            Some(fdc_config) => if fdc_config.drives > 0xFFFF_FFFF {
                u32::MAX
            } else {
                fdc_config.drives as u32
            },
            None => 0,
        };

        self.set_conventional_size(conventional_memory as usize);

        if machine_desc.have_ppi {
            let ghost types = video_types;
            let ppi = D::Ppi::new(
                machine_desc.machine_type,
                conventional_memory,
                false,
                video_types,
                num_floppies,
            );
            let port_list = ppi.port_list();
            map_ports(&mut self.io_map, &port_list, IoDeviceType::Ppi);
            proof {
                assert(lists_ports::<D, D::Ppi>(ppi, port_list));
                assert(conventional_memory == rounded_conventional_memory(
                    machine_config.conventional_memory,
                ) as u32);
                assert(num_floppies == configured_floppies(*machine_config));
                assert(ppi_made::<D, D::Ppi>(
                    machine_desc.machine_type,
                    rounded_conventional_memory(machine_config.conventional_memory) as u32,
                    false,
                    types,
                    configured_floppies(*machine_config),
                    ppi,
                ));
            }
            self.ppi = Some(ppi);
        }
        let ghost with_ppi = self.io_map@;

        let timer_clock = match machine_desc.timer_crystal {
            Some(crystal) => crystal,
            None => machine_desc.system_crystal,
        };
        let pit = D::Pit::new(machine_desc.pit_type, timer_clock, machine_desc.timer_divisor);
        let port_list = pit.port_list();
        map_ports(&mut self.io_map, &port_list, IoDeviceType::Pit);
        proof {
            assert(lists_ports::<D, D::Pit>(pit, port_list));
            assert(timer_made::<D, D::Pit>(
                machine_desc.pit_type,
                machine_desc.timer_clock(),
                machine_desc.timer_divisor,
                pit,
            ));
            assert(*self == (BusInterface {
                conventional_size: conventional_memory as usize,
                ppi: self.ppi,
                io_map: self.io_map,
                ..*old(self)
            }));
            assert(slot_mapped::<D, D::Ppi>(
                old(self).io_map@,
                machine_desc.have_ppi,
                old(self).ppi,
                self.ppi,
                IoDeviceType::Ppi,
                with_ppi,
            ));
            assert(device_mapped::<D, D::Pit>(with_ppi, pit, IoDeviceType::Pit, self.io_map@));
        }
        pit
    }

    /// Installs the primary DMA controller and the primary interrupt
    /// controller and maps their ports.
    fn install_board(&mut self) -> (r: Ghost<(Map<u16, IoDeviceType>, Map<u16, IoDeviceType>)>)
        requires
            old(self).wf(),
        ensures
            final(self).wf(),
            *final(self) == (BusInterface {
                dma1: final(self).dma1,
                pic1: final(self).pic1,
                io_map: final(self).io_map,
                ..*old(self)
            }),
            final(self).dma1 matches Some(dma) && device_mapped::<D, D::Dma>(
                old(self).io_map@,
                dma,
                IoDeviceType::DmaPrimary,
                r@.0,
            ),
            final(self).pic1 matches Some(pic) && device_mapped::<D, D::Pic>(
                r@.0,
                pic,
                IoDeviceType::PicPrimary,
                r@.1,
            ),
            r@.1 == final(self).io_map@,
    {
        let dma1 = D::Dma::new();
        let port_list = dma1.port_list();
        map_ports(&mut self.io_map, &port_list, IoDeviceType::DmaPrimary);
        assert(lists_ports::<D, D::Dma>(dma1, port_list));
        self.dma1 = Some(dma1);
        let ghost m1 = self.io_map@;

        let pic1 = D::Pic::new();
        let port_list = pic1.port_list();
        map_ports(&mut self.io_map, &port_list, IoDeviceType::PicPrimary);
        assert(lists_ports::<D, D::Pic>(pic1, port_list));
        self.pic1 = Some(pic1);
        Ghost((m1, self.io_map@))
    }

    /// Installs the storage controllers and the serial controller as far as
    /// they are configured, and maps their ports.
    fn install_controllers(&mut self, machine_config: &MachineConfiguration) -> (r: Ghost<
        (Map<u16, IoDeviceType>, Map<u16, IoDeviceType>),
    >)
        requires
            old(self).wf(),
        ensures
            final(self).wf(),
            *final(self) == (BusInterface {
                fdc: final(self).fdc,
                hdc: final(self).hdc,
                serial: final(self).serial,
                io_map: final(self).io_map,
                ..*old(self)
            }),
            slot_mapped::<D, D::Fdc>(
                old(self).io_map@,
                machine_config.fdc is Some,
                old(self).fdc,
                final(self).fdc,
                IoDeviceType::FloppyController,
                r@.0,
            ),
            slot_mapped::<D, D::Hdc>(
                r@.0,
                machine_config.hdc is Some,
                old(self).hdc,
                final(self).hdc,
                IoDeviceType::HardDiskController,
                r@.1,
            ),
            slot_mapped::<D, D::Serial>(
                r@.1,
                machine_config.serial@.len() > 0,
                old(self).serial,
                final(self).serial,
                IoDeviceType::Serial,
                final(self).io_map@,
            ),
            machine_config.fdc matches Some(fdc) ==> (final(self).fdc matches Some(dev) && fdc_made::<
                D,
                D::Fdc,
            >(fdc.drives, dev)),
            machine_config.hdc is Some ==> (final(self).hdc matches Some(dev) && hdc_made::<D, D::Hdc>(
                HDC_DRIVE_COUNT,
                DRIVE_TYPE2_DIP,
                dev,
            )),
    {
        if let Some(fdc_config) = machine_config.fdc {
            let fdc = D::Fdc::new(fdc_config.drives);
            let port_list = fdc.port_list();
            map_ports(&mut self.io_map, &port_list, IoDeviceType::FloppyController);
            assert(lists_ports::<D, D::Fdc>(fdc, port_list));
            self.fdc = Some(fdc);
        }
        let ghost m3 = self.io_map@;

        if let Some(hdc_config) = machine_config.hdc {
            match hdc_config.hdc_type {
                HardDiskControllerType::IbmXebec => {
                    let hdc = D::Hdc::new(HDC_DRIVE_COUNT, DRIVE_TYPE2_DIP);
                    let port_list = hdc.port_list();
                    map_ports(&mut self.io_map, &port_list, IoDeviceType::HardDiskController);
                    assert(lists_ports::<D, D::Hdc>(hdc, port_list));
                    self.hdc = Some(hdc);
                },
            }
        }
        let ghost m4 = self.io_map@;

        if machine_config.serial.len() > 0 {
            match machine_config.serial[0].sc_type {
                SerialControllerType::IbmAsync => {
                    let serial = D::Serial::new();
                    let port_list = serial.port_list();
                    map_ports(&mut self.io_map, &port_list, IoDeviceType::Serial);
                    assert(lists_ports::<D, D::Serial>(serial, port_list));
                    self.serial = Some(serial);
                },
            }
        }
        Ghost((m3, m4))
    }

    /// Fills the slots once the timer's gates are tied: puts the timer into
    /// its slot, installs the devices of the board, the keyboard, the
    /// controllers and the mouse, and makes the bus describe the machine.
    fn fill_slots(
        &mut self,
        pit: D::Pit,
        machine_desc: &MachineDescriptor,
        machine_config: &MachineConfiguration,
    )
        requires
            old(self).wf(),
            machine_desc.valid(),
        ensures
            final(self).wf(),
            old(self).slots_filled(*final(self), pit, *machine_desc, *machine_config),
    {
        self.pit = Some(pit);
        let Ghost(board) = self.install_board();

        if let Some(kb_config) = machine_config.keyboard {
            let mut keyboard = D::Keyboard::new(kb_config.kb_type, false);
            let ghost made = keyboard;
            let Ghost(set) = set_typematic::<D::Keyboard>(
                &mut keyboard,
                Some(kb_config.typematic),
                kb_config.typematic_delay,
                kb_config.typematic_rate,
            );
            proof {
                assert(call_ensures(<D::Keyboard as KeyboardDevice>::new, (kb_config.kb_type, false), made));
                assert(typematic_set::<D::Keyboard>(
                    made,
                    Some(kb_config.typematic),
                    kb_config.typematic_delay,
                    kb_config.typematic_rate,
                    set,
                ));
                assert(keyboard_made::<D::Keyboard>(
                    kb_config.kb_type,
                    Some(kb_config.typematic),
                    kb_config.typematic_delay,
                    kb_config.typematic_rate,
                    keyboard,
                ));
            }
            self.keyboard = Some(keyboard);
        }

        let Ghost(controllers) = self.install_controllers(machine_config);

        if let Some(serial_mouse_config) = machine_config.serial_mouse {
            if self.serial.is_some() {
                match serial_mouse_config.mouse_type {
                    SerialMouseType::Microsoft => {
                        let mouse = D::Mouse::new(serial_mouse_config.port);
                        self.mouse = Some(mouse);
                    },
                }
            }
        }

        if self.crystal_hz != machine_desc.system_crystal {
            update_timing_table(&mut self.timing_table, self.cpu_factor, machine_desc.system_crystal);
            self.crystal_hz = machine_desc.system_crystal;
        }
        self.machine_desc = Some(*machine_desc);
        proof {
            assert(old(self).ports_chained(
                *self,
                *machine_config,
                board.0,
                board.1,
                controllers.0,
                controllers.1,
            ));
        }
    }

    /// Installs one video card: makes it, maps its ports, registers its
    /// memory and lists its identity.
    fn install_card(&mut self, video_id: VideoCardId)
        requires
            old(self).wf(),
        ensures
            final(self).wf(),
            old(self).card_installed(*final(self), video_id),
    {
        let card = self.make_video_card(video_id);
        let ghost made_bus = *self;
        self.register_video_memory(video_id);
        let ghost registered_bus = *self;
        self.insert_card(video_id, card);
        proof {
            assert(self.mmio_map == registered_bus.mmio_map);
            assert(self.holds_the_card(video_id, card));
            assert forall|d: MemRangeDescriptor, device: MmioDeviceType| #[trigger]
                old(self).registered(d, device) implies self.registered(d, device) by {
                assert(made_bus.registered(d, device));
                assert(registered_bus.registered(d, device));
            }
            assert forall|j: int| 0 <= j < apertures(video_id.vtype).len() implies self.registered(
                #[trigger] apertures(video_id.vtype)[j],
                MmioDeviceType::Video(video_id),
            ) by {
                assert(registered_bus.registered(
                    apertures(video_id.vtype)[j],
                    MmioDeviceType::Video(video_id),
                ));
            }
            assert forall|vid: VideoCardId, vtype: VideoType|
                vid != video_id && #[trigger] old(self).holds_card(vid, vtype) implies self.holds_card(
                vid,
                vtype,
            ) by {
                assert(registered_bus.holds_card(vid, vtype));
            }
        }
    }

    /// Once one more card is installed on a bus with the first `m - 1` cards
    /// of the configuration, the first `m` are installed.
    proof fn lemma_next_card(before: Self, before_last: Self, after: Self, config: MachineConfiguration, m: nat)
        requires
            m > 0,
            before.cards_installed(before_last, config, (m - 1) as nat),
            before_last.card_installed(after, configured_card(config, m - 1)),
        ensures
            before.cards_installed(after, config, m),
    {
    }

    /// Installs the video cards of the configuration, in their order.
    fn install_cards(&mut self, machine_config: &MachineConfiguration)
        requires
            old(self).wf(),
        ensures
            final(self).wf(),
            final(self).same_slots(*old(self)),
            final(self).same_clock(*old(self)),
            final(self).same_schedule(*old(self)),
            old(self).cards_installed(*final(self), *machine_config, machine_config.video@.len()),
            final(self).card_ids() == old(self).card_ids() + configured_cards(
                *machine_config,
                machine_config.video@.len() as int,
            ),
            forall|k: int|
                0 <= k < machine_config.video@.len() ==> final(self).holds_card(
                    #[trigger] configured_card(*machine_config, k),
                    machine_config.video@[k].video_type,
                ),
            forall|k: int, j: int|
                0 <= k < machine_config.video@.len() && 0 <= j < apertures(
                    machine_config.video@[k].video_type,
                ).len() ==> final(self).registered(
                    #[trigger] apertures(machine_config.video@[k].video_type)[j],
                    MmioDeviceType::Video(#[trigger] configured_card(*machine_config, k)),
                ),
    {
        let card_count = machine_config.video.len();
        let mut i: usize = 0;
        proof {
            assert(self.videocard_ids@ =~= old(self).videocard_ids@ + configured_cards(*machine_config, 0));
        }
        while i < card_count
            invariant
                i <= card_count,
                card_count == machine_config.video@.len(),
                self.wf(),
                self.same_slots(*old(self)),
                self.same_clock(*old(self)),
                self.same_schedule(*old(self)),
                old(self).cards_installed(*self, *machine_config, i as nat),
                self.videocard_ids@ == old(self).videocard_ids@ + configured_cards(
                    *machine_config,
                    i as int,
                ),
                forall|k: int|
                    0 <= k < i ==> self.holds_card(
                        #[trigger] configured_card(*machine_config, k),
                        machine_config.video@[k].video_type,
                    ),
                forall|k: int, j: int|
                    0 <= k < i && 0 <= j < apertures(machine_config.video@[k].video_type).len()
                        ==> self.registered(
                        #[trigger] apertures(machine_config.video@[k].video_type)[j],
                        MmioDeviceType::Video(#[trigger] configured_card(*machine_config, k)),
                    ),
            decreases card_count - i,
        {
            let video_id = VideoCardId { idx: i, vtype: machine_config.video[i].video_type };
            assert(video_id == configured_card(*machine_config, i as int));
            let ghost entry_bus = *self;
            self.install_card(video_id);
            proof {
                let m: nat = (i + 1) as nat;
                assert((m - 1) as nat == i as nat);
                Self::lemma_next_card(*old(self), entry_bus, *self, *machine_config, m);
                assert(self.videocard_ids@ =~= old(self).videocard_ids@ + configured_cards(
                    *machine_config,
                    i + 1,
                ));
                assert forall|k: int, j: int|
                    0 <= k < i + 1 && 0 <= j < apertures(
                        machine_config.video@[k].video_type,
                    ).len() implies self.registered(
                    #[trigger] apertures(machine_config.video@[k].video_type)[j],
                    MmioDeviceType::Video(#[trigger] configured_card(*machine_config, k)),
                ) by {
                    let d = apertures(machine_config.video@[k].video_type)[j];
                    let device = MmioDeviceType::Video(configured_card(*machine_config, k));
                    if k < i {
                        assert(entry_bus.registered(d, device));
                    }
                }
                assert forall|k: int| 0 <= k < i + 1 implies self.holds_card(
                    #[trigger] configured_card(*machine_config, k),
                    machine_config.video@[k].video_type,
                ) by {
                    if k < i {
                        assert(configured_card(*machine_config, k).idx != video_id.idx);
                        assert(entry_bus.holds_card(
                            configured_card(*machine_config, k),
                            machine_config.video@[k].video_type,
                        ));
                    }
                }
            }
            i += 1;
        }
    }

    /// Builds the machine on the bus: makes every device that the machine's
    /// description and configuration call for, maps each device's ports to
    /// it, and registers the memory of each video card.
    ///
    /// The size of conventional memory is set first, and the peripheral
    /// interface is installed if the machine has one. Then the timer is made
    /// and has the gates of its first two channels tied high, with the bus in
    /// hand as it is by then; what the timer does to the bus is the timer's
    /// business. After that the timer, a DMA controller and an interrupt
    /// controller are put into their slots; keyboard, floppy and hard disk
    /// controller and serial controller as configured; a mouse if one is
    /// configured and there is a serial controller to plug it in; and last
    /// the video cards, in the order of the configuration.
    ///
    /// Fails, changing nothing, if the configured conventional memory is not
    /// one that a machine can have.
    pub fn install_devices(&mut self, machine_desc: &MachineDescriptor, machine_config: &MachineConfiguration) -> (r:
        Result<(), InstallError>)
        requires
            old(self).wf(),
            machine_desc.valid(),
        ensures
            final(self).wf(),
            r is Ok <==> conventional_memory_valid(machine_config.conventional_memory),
            r is Err ==> r == Err::<(), InstallError>(InstallError::InvalidConventionalMemory) && *final(self) == *old(self),
            r is Ok ==> {
                &&& old(self).installed(*final(self), *machine_desc, *machine_config)
                &&& final(self).descriptor() == Some(*machine_desc)
                &&& final(self).crystal() == machine_desc.system_crystal
                &&& final(self).has_timer()
                &&& final(self).has_dma()
                &&& final(self).has_pic()
                &&& machine_config.keyboard is Some ==> final(self).has_keyboard()
                &&& machine_config.fdc is Some ==> final(self).has_fdc()
                &&& machine_config.hdc is Some ==> final(self).has_hdc()
                &&& machine_config.serial@.len() > 0 ==> final(self).has_serial()
                &&& machine_config.serial_mouse is Some && machine_config.serial@.len() > 0 ==> final(self).has_mouse()
                &&& forall|k: int|
                    0 <= k < machine_config.video@.len() ==> final(self).holds_card(
                        #[trigger] configured_card(*machine_config, k),
                        machine_config.video@[k].video_type,
                    )
                &&& forall|k: int, j: int|
                    0 <= k < machine_config.video@.len() && 0 <= j < apertures(
                        machine_config.video@[k].video_type,
                    ).len() ==> final(self).registered(
                        #[trigger] apertures(machine_config.video@[k].video_type)[j],
                        MmioDeviceType::Video(#[trigger] configured_card(*machine_config, k)),
                    )
            },
    {
        let conventional_memory = match normalize_conventional_memory(machine_config) {
            Ok(size) => size,
            Err(e) => {
                return Err(e);
            },
        };

        let mut pit = self.prepare_timer(machine_desc, machine_config, conventional_memory);
        let ghost handed = *self;
        let ghost timer = pit;
        let Ghost(first) = tie_channel_gate::<D, D::Pit>(&mut pit, 0, true, self);
        let ghost between = *self;
        let ghost timer_between = pit;
        let Ghost(second) = tie_channel_gate::<D, D::Pit>(&mut pit, 1, true, self);
        let ghost gated = *self;
        let ghost timer_gated = pit;
        proof {
            assert(gate_tied::<D, D::Pit>(timer, 0, true, handed, first.0, first.1));
            assert(gate_tied::<D, D::Pit>(timer_between, 1, true, between, second.0, second.1));
        }

        self.fill_slots(pit, machine_desc, machine_config);
        let ghost slotted = *self;
        self.install_cards(machine_config);
        proof {
            assert(old(self).install_chain(
                *self,
                *machine_desc,
                *machine_config,
                handed,
                timer,
                between,
                timer_between,
                gated,
                timer_gated,
                slotted,
            ));
        }
        Ok(())
    }

    /// Resets the timer, the primary interrupt controller, the primary DMA
    /// controller and every video card. Memory, mappings and every other
    /// device stay, and each device that is reset stays in its place.
    pub fn reset_devices(&mut self)
        requires
            old(self).wf(),
        ensures
            final(self).wf(),
            final(self).quiet_since(*old(self)),
            final(self).same_schedule(*old(self)),
            final(self).same_card_kinds(*old(self)),
            final(self).keyboard_slot() == old(self).keyboard_slot(),
            final(self).ppi_slot() == old(self).ppi_slot(),
            final(self).dma2_slot() == old(self).dma2_slot(),
            final(self).pic2_slot() == old(self).pic2_slot(),
            final(self).serial_slot() == old(self).serial_slot(),
            final(self).fdc_slot() == old(self).fdc_slot(),
            final(self).hdc_slot() == old(self).hdc_slot(),
            final(self).mouse_slot() == old(self).mouse_slot(),
            match old(self).pit_slot() {
                Some(timer) => final(self).pit_slot() matches Some(after) && timer_was_reset::<D, D::Pit>(
                    timer,
                    after,
                ),
                None => final(self).pit_slot() is None,
            },
            match old(self).pic_slot() {
                Some(pic) => final(self).pic_slot() matches Some(after) && pic_was_reset::<D, D::Pic>(
                    pic,
                    after,
                ),
                None => final(self).pic_slot() is None,
            },
            match old(self).dma_slot() {
                Some(dma) => final(self).dma_slot() matches Some(after) && dma_was_reset::<D, D::Dma>(
                    dma,
                    after,
                ),
                None => final(self).dma_slot() is None,
            },
            forall|i: int|
                0 <= i < old(self).cards().len() ==> (#[trigger] old(self).cards()[i]).card.was_reset(
                    final(self).cards()[i].card,
                ),
    {
        if let Some(pit) = &mut self.pit {
            let ghost before = *pit;
            let Ghost(after) = reset_timer::<D, D::Pit>(pit);
            assert(timer_was_reset::<D, D::Pit>(before, after));
        }
        if let Some(pic1) = &mut self.pic1 {
            let ghost before = *pic1;
            let Ghost(after) = reset_pic::<D, D::Pic>(pic1);
            assert(pic_was_reset::<D, D::Pic>(before, after));
        }
        if let Some(dma1) = &mut self.dma1 {
            let ghost before = *dma1;
            let Ghost(after) = reset_dma::<D, D::Dma>(dma1);
            assert(dma_was_reset::<D, D::Dma>(before, after));
        }
        let ghost slots = *self;
        let card_count = self.videocards.len();
        let mut i: usize = 0;
        while i < card_count
            invariant
                i <= card_count,
                card_count == self.videocards@.len(),
                card_count == old(self).videocards@.len(),
                self.wf(),
                self.quiet_since(*old(self)),
                self.same_schedule(*old(self)),
                self.same_card_kinds(*old(self)),
                self.same_slots(slots),
                forall|k: int|
                    i <= k < card_count ==> #[trigger] self.videocards@[k] == old(self).videocards@[k],
                forall|k: int|
                    0 <= k < i ==> (#[trigger] old(self).videocards@[k]).card.was_reset(
                        self.videocards@[k].card,
                    ),
            decreases card_count - i,
        {
            let ghost before = self.videocards@;
            self.videocards[i].card.reset();
            proof {
                assert(before[i as int].card.was_reset(self.videocards@[i as int].card));
                assert(forall|k: int| 0 <= k < card_count && k != i ==> self.videocards@[k] == before[k]);
            }
            i += 1;
        }
    }

    /// Resets the devices that a warm boot resets: the timer. Nothing else
    /// changes, and without a timer nothing at all.
    pub fn reset_devices_warm(&mut self)
        requires
            old(self).wf(),
        ensures
            final(self).wf(),
            final(self).quiet_since(*old(self)),
            final(self).same_schedule(*old(self)),
            final(self).same_slots_but(*old(self), IoDeviceType::Pit),
            final(self).cards() == old(self).cards(),
            old(self).pit_slot() matches Some(timer) ==> (final(self).pit_slot() matches Some(after)
                && timer_was_reset::<D, D::Pit>(timer, after)),
            !old(self).has_timer() ==> *final(self) == *old(self),
    {
        if let Some(pit) = &mut self.pit {
            let ghost before = *pit;
            let Ghost(after) = reset_timer::<D, D::Pit>(pit);
            assert(timer_was_reset::<D, D::Pit>(before, after));
        } else {
            assert(*self == *old(self));
        }
    }

    /// Tells whether the non-maskable interrupt is enabled. It is, unless
    /// the machine has a peripheral interface; then the interface tells.
    pub fn nmi_enabled(&self) -> (enabled: bool)
        ensures
            !(self.descriptor() matches Some(desc) && desc.have_ppi && self.has_ppi()) ==> enabled,
            (self.descriptor() matches Some(desc) && desc.have_ppi) ==> (self.ppi_slot() matches Some(ppi)
                ==> call_ensures(<D::Ppi as PpiDevice<D>>::nmi_enabled, (&ppi,), enabled)),
    {
        match self.machine_desc {
            Some(desc) => {
                if desc.have_ppi {
                    match &self.ppi {
                        Some(ppi) => ppi.nmi_enabled(),
                        None => true,
                    }
                } else {
                    true
                }
            },
            None => true,
        }
    }

    /// The number of drives that the floppy disk controller tells; none
    /// without a controller.
    pub fn floppy_drive_ct(&self) -> (count: usize)
        ensures
            !self.has_fdc() ==> count == 0,
            self.fdc_slot() matches Some(fdc) ==> call_ensures(
                <D::Fdc as FloppyDevice<D>>::drive_ct,
                (&fdc,),
                count,
            ),
    {
        match &self.fdc {
            Some(fdc) => fdc.drive_ct(),
            None => 0,
        }
    }

    /// The number of drives that the hard disk controller tells; none
    /// without a controller.
    pub fn hdd_ct(&self) -> (count: usize)
        ensures
            !self.has_hdc() ==> count == 0,
            self.hdc_slot() matches Some(hdc) ==> call_ensures(
                <D::Hdc as HardDiskDevice<D>>::drive_ct,
                (&hdc,),
                count,
            ),
    {
        match &self.hdc {
            Some(hdc) => hdc.drive_ct(),
            None => 0,
        }
    }
}

} // verus!
