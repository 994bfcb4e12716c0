use vstd::prelude::*;

verus! {

/// Kind tag of a camera packet.
#[derive(Debug, Clone, Copy, PartialEq, Eq, Structural)]
pub enum PacketKind {
    /// A request for an image.
    ImgReq,
    /// Acknowledgement.
    Ack,
    /// Negative acknowledgement.
    NAck,
    /// A packet that carries image data.
    Image,
}

/// A camera packet: a kind tag, three integer fields and an optional payload of raw
/// pixel bytes whose shape the two dimension fields give.
#[derive(Debug, Clone)]
pub struct Packet {
    pub kind: PacketKind,
    pub packet_id: u32,
    pub x_dim: u32,
    pub y_dim: u32,
    pub data: Option<Vec<u8>>,
}

impl Packet {
    /// A packet of the given kind with every integer field zero and no payload.
    pub fn bare(kind: PacketKind) -> (r: Packet)
        ensures
            r.kind == kind,
            r.packet_id == 0,
            r.x_dim == 0,
            r.y_dim == 0,
            r.data is None,
    {
        Packet { kind, packet_id: 0, x_dim: 0, y_dim: 0, data: None }
    }
}

/// Something that arrived on the connection to the camera server.
#[derive(Debug, Clone)]
pub enum Event {
    /// The connection opened.
    Opened,
    /// A binary message that holds a packet.
    Packet(Packet),
    /// Any other message, as text.
    Message(String),
    /// The connection reported an error.
    Error(String),
    /// The connection closed.
    Closed,
}

/// Whether an event carries an image packet.
pub open spec fn is_image_event(e: Event) -> bool {
    e matches Event::Packet(p) && p.kind == PacketKind::Image
}

/// The packet of an image event.
pub open spec fn image_packet_of(e: Event) -> Packet
    recommends
        is_image_event(e),
{
    match e {
        Event::Packet(p) => p,
        _ => arbitrary(),
    }
}

proof fn lemma_split_step(s: Seq<Event>, e: Event)
    ensures
        s.push(e).filter(|x: Event| is_image_event(x)).map_values(|x: Event| image_packet_of(x))
            == if is_image_event(e) {
            s.filter(|x: Event| is_image_event(x)).map_values(|x: Event| image_packet_of(x)).push(
                image_packet_of(e),
            )
        } else {
            s.filter(|x: Event| is_image_event(x)).map_values(|x: Event| image_packet_of(x))
        },
        s.push(e).filter(|x: Event| !is_image_event(x)) == if is_image_event(e) {
            s.filter(|x: Event| !is_image_event(x))
        } else {
            s.filter(|x: Event| !is_image_event(x)).push(e)
        },
{
    reveal_with_fuel(Seq::filter, 1);
    assert(s.push(e).drop_last() =~= s);
    let f = s.filter(|x: Event| is_image_event(x));
    assert(f.push(e).map_values(|x: Event| image_packet_of(x)) =~= f.map_values(
        |x: Event| image_packet_of(x),
    ).push(image_packet_of(e)));
}

/// The events received so far, split into image packets and everything else, with a
/// flag that tells whether an image arrived since it was last taken.
pub struct EventLog {
    events: Vec<Event>,
    images: Vec<Packet>,
    new_image: bool,
}

impl EventLog {
    /// Every event that was not an image packet, in arrival order.
    pub closed spec fn spec_events(&self) -> Seq<Event> {
        self.events@
    }

    /// Every image packet, in arrival order.
    pub closed spec fn spec_images(&self) -> Seq<Packet> {
        self.images@
    }

    /// Whether an image arrived that was not taken yet.
    pub closed spec fn spec_new_image(&self) -> bool {
        self.new_image
    }

    /// Every stored image packet has the image kind.
    pub open spec fn wf(&self) -> bool {
        forall|i: int|
            0 <= i < self.spec_images().len() ==> #[trigger] self.spec_images()[i].kind
                == PacketKind::Image
    }

    /// A log with nothing received.
    pub fn new() -> (r: EventLog)
        ensures
            r.wf(),
            r.spec_events() == Seq::<Event>::empty(),
            r.spec_images() == Seq::<Packet>::empty(),
            !r.spec_new_image(),
    {
        EventLog { events: Vec::new(), images: Vec::new(), new_image: false }
    }

    /// Files one received event: an image packet joins the images and raises the flag,
    /// anything else joins the other events.
    pub fn route(&mut self, e: Event)
        ensures
            old(self).wf() ==> final(self).wf(),
            is_image_event(e) ==> {
                &&& final(self).spec_images() == old(self).spec_images().push(image_packet_of(e))
                &&& final(self).spec_events() == old(self).spec_events()
                &&& final(self).spec_new_image()
            },
            !is_image_event(e) ==> {
                &&& final(self).spec_images() == old(self).spec_images()
                &&& final(self).spec_events() == old(self).spec_events().push(e)
                &&& final(self).spec_new_image() == old(self).spec_new_image()
            },
    {
        match e {
            Event::Packet(p) => {
                if p.kind == PacketKind::Image {
                    self.images.push(p);
                    self.new_image = true;
                } else {
                    self.events.push(Event::Packet(p));
                }
            },
            other => {
                self.events.push(other);
            },
        }
    }

    /// Files each event in turn.
    pub fn route_all(&mut self, incoming: Vec<Event>)
        ensures
            old(self).wf() ==> final(self).wf(),
            final(self).spec_images() == old(self).spec_images() + incoming@.filter(
                |e: Event| is_image_event(e),
            ).map_values(|e: Event| image_packet_of(e)),
            final(self).spec_events() == old(self).spec_events() + incoming@.filter(
                |e: Event| !is_image_event(e),
            ),
            final(self).spec_new_image() == (old(self).spec_new_image() || exists|i: int|
                0 <= i < incoming@.len() && is_image_event(#[trigger] incoming@[i])),
    {
        let ghost start_images = self.images@;
        let ghost start_events = self.events@;
        let ghost start_flag = self.new_image;
        let ghost all = incoming@;
        let mut rest = incoming;
        let n = rest.len();
        let mut k: usize = 0;
        while k < n
            invariant
                k <= n,
                n == all.len(),
                rest@ == all.skip(k as int),
                self.images@ == start_images + all.take(k as int).filter(
                    |e: Event| is_image_event(e),
                ).map_values(|e: Event| image_packet_of(e)),
                self.events@ == start_events + all.take(k as int).filter(
                    |e: Event| !is_image_event(e),
                ),
                old(self).wf() ==> self.wf(),
                self.new_image == (start_flag || exists|i: int|
                    0 <= i < k && is_image_event(#[trigger] all[i])),
            decreases n - k,
        {
            let e = rest.remove(0);
            assert(e == all[k as int]);
            assert(rest@ =~= all.skip(k + 1));
            assert(all.take(k + 1) =~= all.take(k as int).push(e));
            proof {
                lemma_split_step(all.take(k as int), e);
            }
            self.route(e);
            k = k + 1;
        }
        assert(all.take(n as int) =~= all);
    }

    /// Reports whether an image arrived since the last call, and lowers the flag.
    pub fn take_new_image(&mut self) -> (r: bool)
        ensures
            old(self).wf() ==> final(self).wf(),
            r == old(self).spec_new_image(),
            !final(self).spec_new_image(),
            final(self).spec_images() == old(self).spec_images(),
            final(self).spec_events() == old(self).spec_events(),
    {
        let r = self.new_image;
        self.new_image = false;
        r
    }

    /// The most recent image packet, if any arrived.
    pub fn latest_image(&self) -> (r: Option<&Packet>)
        ensures
            self.spec_images().len() == 0 ==> r is None,
            self.spec_images().len() > 0 ==> r is Some && *r->0 == self.spec_images().last(),
    {
        if self.images.len() == 0 {
            None
        } else {
            Some(&self.images[self.images.len() - 1])
        }
    }

    /// The events that were not image packets, in arrival order.
    pub fn events(&self) -> (r: &Vec<Event>)
        ensures
            r@ == self.spec_events(),
    {
        &self.events
    }

    /// Number of image packets received.
    pub fn image_count(&self) -> (r: usize)
        ensures
            r as int == self.spec_images().len(),
    {
        self.images.len()
    }
}

} // verus!
