//! Image assets and the patch that gives every newly created image the
//! usage flags the tile renderer needs.

use vstd::prelude::*;
use crate::usage::{render_usage, render_usage_spec};
use std::collections::HashMap;

verus! {

broadcast use vstd::std_specs::hash::group_hash_axioms;

/// A lifecycle notification about the image behind a handle.
#[derive(Clone, Copy, Debug, PartialEq, Eq, Structural)]
pub enum AssetEvent {
    Created { handle: u64 },
    Modified { handle: u64 },
    Removed { handle: u64 },
}

/// What the patch reads and writes of an image: its size and usage bits.
#[derive(Clone, Copy, Debug, PartialEq, Eq, Structural)]
pub struct Image {
    pub width: u32,
    pub height: u32,
    pub usage: u32,
}

/// The loaded images, each under its handle.
pub struct ImageAssets {
    images: HashMap<u64, Image>,
}

/// The image with its usage replaced and all else kept.
pub open spec fn with_usage(image: Image, usage: u32) -> Image {
    Image { usage, ..image }
}

/// Whether some notification of the stream reports the handle as created.
pub open spec fn created_in(events: Seq<AssetEvent>, handle: u64) -> bool {
    exists|i: int| 0 <= i < events.len() && events[i] == (AssetEvent::Created { handle })
}

/// The images after a stream of notifications: those reported as created
/// carry the render usage, all others are as they were, and no image is
/// added or removed.
pub open spec fn normalized(images: Map<u64, Image>, events: Seq<AssetEvent>) -> Map<u64, Image> {
    Map::new(
        |h: u64| images.contains_key(h),
        |h: u64|
            if created_in(events, h) {
                with_usage(images[h], render_usage_spec())
            } else {
                images[h]
            },
    )
}

impl ImageAssets {
    pub closed spec fn view(&self) -> Map<u64, Image> {
        self.images@
    }

    /// No images.
    pub fn new() -> (r: ImageAssets)
        ensures
            r@ == Map::<u64, Image>::empty(),
    {
        ImageAssets { images: HashMap::new() }
    }

    /// Stores an image under a handle, replacing one already there.
    pub fn insert(&mut self, handle: u64, image: Image)
        ensures
            final(self)@ == old(self)@.insert(handle, image),
    {
        self.images.insert(handle, image);
    }

    /// The image under a handle, if the handle resolves.
    pub fn get(&self, handle: u64) -> (r: Option<Image>)
        ensures
            r == (if self@.contains_key(handle) {
                Some(self@[handle])
            } else {
                None::<Image>
            }),
    {
        match self.images.get(&handle) {
            Some(image) => Some(*image),
            None => None,
        }
    }

    /// Number of stored images.
    pub fn len(&self) -> (r: usize)
        ensures
            r == self@.len(),
    {
        self.images.len()
    }

    /// Sets the usage of the image under a handle; returns whether the
    /// handle resolved. Nothing changes where it does not.
    pub fn set_usage(&mut self, handle: u64, usage: u32) -> (r: bool)
        ensures
            r == old(self)@.contains_key(handle),
            final(self)@ == (if r {
                old(self)@.insert(handle, with_usage(old(self)@[handle], usage))
            } else {
                old(self)@
            }),
    {
        match self.get(handle) {
            Some(image) => {
                self.images.insert(handle, Image { usage, ..image });
                true
            },
            None => false,
        }
    }
}

/// Gives every image that a notification reports as created the usage
/// bindable-as-texture, copy-source and copy-destination. Other kinds of
/// notification, and handles that no longer resolve, are passed over.
pub fn set_texture_filters_to_nearest(texture_events: &Vec<AssetEvent>, textures: &mut ImageAssets)
    ensures
        final(textures)@ == normalized(old(textures)@, texture_events@),
{
    let ghost start = textures@;
    let usage = render_usage();
    let n = texture_events.len();
    let mut i: usize = 0;
    assert(textures@ =~= normalized(start, texture_events@.take(0)));
    while i < n
        invariant
            n == texture_events@.len(),
            i <= n,
            usage == render_usage_spec(),
            textures@ == normalized(start, texture_events@.take(i as int)),
        decreases n - i,
    {
        let event = texture_events[i];
        match event {
            AssetEvent::Created { handle } => {
                textures.set_usage(handle, usage);
            },
            _ => {},
        }
        proof {
            lemma_created_in_take_next(texture_events@, i as int);
            assert(textures@ =~= normalized(start, texture_events@.take(i + 1)));
        }
        i = i + 1;
    }
    assert(texture_events@.take(n as int) =~= texture_events@);
}

/// One notification more in the prefix adds at most its own handle to
/// those reported as created.
proof fn lemma_created_in_take_next(events: Seq<AssetEvent>, i: int)
    requires
        0 <= i < events.len(),
    ensures
        forall|h: u64|
            #[trigger] created_in(events.take(i + 1), h) == (created_in(events.take(i), h)
                || events[i] == (AssetEvent::Created { handle: h })),
{
    assert forall|h: u64|
        #[trigger] created_in(events.take(i + 1), h) == (created_in(events.take(i), h)
            || events[i] == (AssetEvent::Created { handle: h })) by {
        if created_in(events.take(i), h) {
            let j = choose|j: int|
                0 <= j < events.take(i).len() && #[trigger] events.take(i)[j] == (AssetEvent::Created {
                    handle: h,
                });
            assert(events.take(i + 1)[j] == events.take(i)[j]);
        }
        if events[i] == (AssetEvent::Created { handle: h }) {
            assert(events.take(i + 1)[i] == events[i]);
        }
        if created_in(events.take(i + 1), h) {
            let j = choose|j: int|
                0 <= j < events.take(i + 1).len() && #[trigger] events.take(i + 1)[j] == (
                AssetEvent::Created { handle: h });
            if j < i {
                assert(events.take(i)[j] == events.take(i + 1)[j]);
            }
        }
    }
}

/// After a stream of notifications, an image that some notification
/// reports as created has exactly the render usage (its size kept), an
/// image that none reports as created is left as it was, and the set of
/// handles does not change.
pub proof fn lemma_created_images_patched_others_kept(
    images: Map<u64, Image>,
    events: Seq<AssetEvent>,
    handle: u64,
)
    requires
        images.contains_key(handle),
    ensures
        normalized(images, events).dom() == images.dom(),
        created_in(events, handle) ==> {
            &&& normalized(images, events)[handle].usage == render_usage_spec()
            &&& normalized(images, events)[handle].width == images[handle].width
            &&& normalized(images, events)[handle].height == images[handle].height
        },
        !created_in(events, handle) ==> normalized(images, events)[handle] == images[handle],
{
    assert(normalized(images, events).dom() =~= images.dom());
}

/// Processing a stream of notifications a second time changes nothing more.
pub proof fn lemma_normalized_idempotent(images: Map<u64, Image>, events: Seq<AssetEvent>)
    ensures
        normalized(normalized(images, events), events) == normalized(images, events),
{
    assert(normalized(normalized(images, events), events) =~= normalized(images, events));
}

/// A notification processed twice in a row leaves the images as processing
/// it once does.
pub proof fn lemma_repeated_event_same_result(
    images: Map<u64, Image>,
    events: Seq<AssetEvent>,
    event: AssetEvent,
)
    ensures
        normalized(images, events.push(event).push(event)) == normalized(
            images,
            events.push(event),
        ),
{
    let once = events.push(event);
    let twice = once.push(event);
    assert forall|h: u64| #[trigger] created_in(twice, h) == created_in(once, h) by {
        if created_in(twice, h) {
            let j = choose|j: int|
                0 <= j < twice.len() && #[trigger] twice[j] == (AssetEvent::Created { handle: h });
            if j == once.len() {
                assert(once[once.len() - 1] == event);
            } else {
                assert(once[j] == twice[j]);
            }
        }
        if created_in(once, h) {
            let j = choose|j: int|
                0 <= j < once.len() && #[trigger] once[j] == (AssetEvent::Created { handle: h });
            assert(twice[j] == once[j]);
        }
    }
    assert(normalized(images, twice) =~= normalized(images, once));
}

/// A "created" notification for a handle that resolves to no image changes
/// nothing.
pub proof fn lemma_unresolved_handle_ignored(
    images: Map<u64, Image>,
    events: Seq<AssetEvent>,
    handle: u64,
)
    requires
        !images.contains_key(handle),
    ensures
        normalized(images, events.push(AssetEvent::Created { handle })) == normalized(
            images,
            events,
        ),
        normalized(images, seq![AssetEvent::Created { handle }]) == images,
{
    let more = events.push(AssetEvent::Created { handle });
    assert forall|h: u64| h != handle implies #[trigger] created_in(more, h) == created_in(
        events,
        h,
    ) by {
        if created_in(more, h) {
            let j = choose|j: int|
                0 <= j < more.len() && #[trigger] more[j] == (AssetEvent::Created { handle: h });
            assert(j != events.len());
            assert(events[j] == more[j]);
        }
        if created_in(events, h) {
            let j = choose|j: int|
                0 <= j < events.len() && #[trigger] events[j] == (AssetEvent::Created { handle: h });
            assert(more[j] == events[j]);
        }
    }
    assert(normalized(images, more) =~= normalized(images, events));
    let single = seq![AssetEvent::Created { handle }];
    assert forall|h: u64| h != handle implies !#[trigger] created_in(single, h) by {
        if created_in(single, h) {
            let j = choose|j: int|
                0 <= j < single.len() && #[trigger] single[j] == (AssetEvent::Created {
                    handle: h,
                });
            assert(single[j] == single[0]);
        }
    }
    assert(normalized(images, single) =~= images);
}

} // verus!
