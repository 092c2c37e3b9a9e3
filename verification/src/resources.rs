//! The asynchronous resource loader. Every loadable object moves one way
//! through `Registered -> Decoding -> Decoded -> Resident`: registration is
//! O(1) bookkeeping, decoding happens off the render thread (the caller
//! runs the returned `DecodeTask` and hands the payload back), and the
//! render thread promotes decoded payloads to device-resident images when
//! it drains completions once per frame.
//!
//! Decoding itself is the one outside computation: it is deterministic in
//! the input bytes, named `decode_of` below, so the synchronous and the
//! asynchronous path provably converge on identical bytes.

use crate::gpu::GpuContext;
use crate::gpu_image::GpuImage;
use crate::gpu_image::ImageFormat;
use vstd::prelude::*;

verus! {

/// What decoding a byte string yields: width, height, and the raw buffer
/// (at least `4 * width * height` RGBA8 bytes), or nothing when the bytes
/// are not a decodable image. The result depends on the bytes alone: this
/// crate registers none of the decoder's process-global format hooks, and
/// a host that installed its own would change only which byte strings
/// decode at all.
pub uninterp spec fn decode_of(bytes: Seq<u8>) -> Option<(u32, u32, Seq<u8>)>;

/// The decoded payload proper: exactly `4 * width * height` row-major
/// RGBA8 bytes, or `None` when the bytes do not decode.
pub open spec fn decoded_view(bytes: Seq<u8>) -> Option<(u32, u32, Seq<u8>)> {
    match decode_of(bytes) {
        Some((w, h, px)) => Some((w, h, px.take(4 * w * h))),
        None => None,
    }
}

/// Relies on image::load_from_memory and DynamicImage::to_rgba8: the
/// decode is a pure function of the bytes; a decoded RGBA8 buffer holds at
/// least `4 * width * height` bytes (the image buffer checks that bound,
/// with the product computed without overflow, at construction).
#[verifier::external_body]
fn decode_rgba(bytes: &Vec<u8>) -> (r: Option<(u32, u32, Vec<u8>)>)
    ensures
        match r {
            Some((w, h, px)) => decode_of(bytes@) matches Some(t) && t.0 == w && t.1 == h && t.2
                == px@ && px@.len() >= 4 * w * h,
            None => decode_of(bytes@) is None,
        },
{
    match image::load_from_memory(bytes.as_slice()) {
        Ok(img) => {
            let rgba = img.to_rgba8();
            let (w, h) = rgba.dimensions();
            Some((w, h, rgba.into_raw()))
        },
        Err(_) => None,
    }
}

/// A decoded-but-not-yet-resident texture payload: dimensions plus exactly
/// `4 * width * height` RGBA8 bytes.
pub struct DecodedImage {
    width: u32,
    height: u32,
    pixels: Vec<u8>,
}

impl DecodedImage {
    pub closed spec fn spec_width(self) -> u32 {
        self.width
    }

    pub closed spec fn spec_height(self) -> u32 {
        self.height
    }

    pub closed spec fn spec_pixels(self) -> Seq<u8> {
        self.pixels@
    }

    pub open spec fn view(self) -> (u32, u32, Seq<u8>) {
        (self.spec_width(), self.spec_height(), self.spec_pixels())
    }

    /// The payload invariant: the buffer holds one RGBA8 quadruple per
    /// pixel, nothing more.
    pub open spec fn wf(self) -> bool {
        self.spec_pixels().len() == 4 * self.spec_width() * self.spec_height()
    }

    /// Decode an encoded image (PNG, JPEG, ...) from memory. Succeeds
    /// exactly when the bytes decode, and then carries exactly the decoded
    /// payload. Decoding is deterministic in the bytes.
    pub fn from_bytes(bytes: &Vec<u8>) -> (r: Option<DecodedImage>)
        ensures
            match r {
                Some(d) => decoded_view(bytes@) == Some(d.view()) && d.wf(),
                None => decoded_view(bytes@) is None,
            },
    {
        match decode_rgba(bytes) {
            Some((width, height, mut pixels)) => {
                let raw_len = pixels.len();
                proof {
                    let wi = width as int;
                    let hi = height as int;
                    let cap = usize::MAX as int;
                    assert(4 * wi * hi <= raw_len as int <= cap);
                    assert(wi * hi >= 0 && wi * hi <= cap && 4 * (wi * hi) <= cap && 4 * (wi
                        * hi) == 4 * wi * hi)
                        by (nonlinear_arith)
                        requires
                            0 <= wi,
                            0 <= hi,
                            4 * wi * hi <= cap,
                    ;
                }
                let wh = (width as usize) * (height as usize);
                let n = 4 * wh;
                pixels.truncate(n);
                proof {
                    assert(n == 4 * (width as int) * (height as int));
                    assert(pixels@ =~= decode_of(bytes@)->Some_0.2.take(4 * width * height));
                }
                Some(DecodedImage { width, height, pixels })
            },
            None => None,
        }
    }

    pub fn width(&self) -> (r: u32)
        ensures
            r == self.spec_width(),
    {
        self.width
    }

    pub fn height(&self) -> (r: u32)
        ensures
            r == self.spec_height(),
    {
        self.height
    }
}

/// A decode dispatched to the worker pool: the worker reads and decodes
/// the file at `location` and hands the payload back under `ticket`.
pub struct DecodeTask {
    pub ticket: u64,
    pub location: String,
}

/// How loading can fail: a reference registered twice, or bytes that do
/// not decode (the error names the offending path).
#[derive(Debug)]
pub enum LoadError {
    DuplicateReference,
    DecodeFailed(String),
}

/// What a loadable object is: a texture or a font atlas texture, either
/// still pending (`None`) or device-resident.
pub enum ObjectType {
    Texture(Option<GpuImage>),
    Font(Option<GpuImage>),
}

/// One registered object: unique string reference, source path, and its
/// one-way pending-to-resident state.
pub struct LoadableObject {
    pub reference: String,
    pub location: String,
    pub loaded: bool,
    pub object_type: ObjectType,
}

/// The ghost image of one registry entry.
pub struct EntryView {
    pub reference: Seq<char>,
    pub location: Seq<char>,
    pub loaded: bool,
    pub is_font: bool,
    pub image: Option<(u32, u32, Seq<u8>)>,
}

/// The ghost image of one in-flight decode.
pub struct FlightView {
    pub ticket: u64,
    pub reference: Seq<char>,
    pub location: Seq<char>,
}

pub open spec fn entry_view(o: LoadableObject) -> EntryView {
    EntryView {
        reference: o.reference@,
        location: o.location@,
        loaded: o.loaded,
        is_font: o.object_type is Font,
        image: match o.object_type {
            ObjectType::Texture(Some(img)) => Some(img.payload_view()),
            ObjectType::Font(Some(img)) => Some(img.payload_view()),
            _ => None,
        },
    }
}

/// A freshly registered, not yet decoded texture entry.
pub open spec fn pending_texture_entry(reference: Seq<char>, location: Seq<char>) -> EntryView {
    EntryView { reference, location, loaded: false, is_font: false, image: None }
}

/// A device-resident entry carrying its decoded payload.
pub open spec fn resident_entry(
    reference: Seq<char>,
    location: Seq<char>,
    is_font: bool,
    payload: (u32, u32, Seq<u8>),
) -> EntryView {
    EntryView { reference, location, loaded: true, is_font, image: Some(payload) }
}

/// Whether some entry carries this reference.
pub open spec fn has_entry(objs: Seq<EntryView>, reference: Seq<char>) -> bool {
    exists|i: int| 0 <= i < objs.len() && objs[i].reference == reference
}

/// Whether some in-flight decode carries this reference.
pub open spec fn has_flight(fl: Seq<FlightView>, reference: Seq<char>) -> bool {
    exists|i: int| 0 <= i < fl.len() && fl[i].reference == reference
}

/// The index of the entry carrying `reference`, unique by the registry's
/// invariant.
pub open spec fn entry_index(objs: Seq<EntryView>, reference: Seq<char>) -> Option<int> {
    if has_entry(objs, reference) {
        Some(choose|i: int| 0 <= i < objs.len() && objs[i].reference == reference)
    } else {
        None
    }
}

/// The index of the in-flight decode with this ticket, unique by the
/// registry's invariant.
pub open spec fn flight_index(fl: Seq<FlightView>, ticket: u64) -> Option<int> {
    if exists|i: int| 0 <= i < fl.len() && fl[i].ticket == ticket {
        Some(choose|i: int| 0 <= i < fl.len() && fl[i].ticket == ticket)
    } else {
        None
    }
}

/// Registration: reject a known reference before any decode work exists,
/// otherwise append a pending entry.
pub open spec fn spec_register(
    objs: Seq<EntryView>,
    fl: Seq<FlightView>,
    reference: Seq<char>,
    location: Seq<char>,
) -> (Seq<EntryView>, bool) {
    if has_entry(objs, reference) || has_flight(fl, reference) {
        (objs, false)
    } else {
        (objs.push(pending_texture_entry(reference, location)), true)
    }
}

/// Dispatch: move a registered-but-unloaded entry into the in-flight set
/// under a fresh ticket; anything else is a no-op.
pub open spec fn spec_dispatch(
    objs: Seq<EntryView>,
    fl: Seq<FlightView>,
    reference: Seq<char>,
    ticket: u64,
) -> (Seq<EntryView>, Seq<FlightView>, bool) {
    match entry_index(objs, reference) {
        Some(i) => {
            if !objs[i].loaded && !objs[i].is_font {
                let e = objs[i];
                (
                    objs.remove(i),
                    fl.push(FlightView { ticket, reference: e.reference, location: e.location }),
                    true,
                )
            } else {
                (objs, fl, false)
            }
        },
        None => (objs, fl, false),
    }
}

/// Promotion of one completed decode: the in-flight entry becomes a
/// resident texture entry; an unknown ticket is ignored.
pub open spec fn spec_receive_one(
    objs: Seq<EntryView>,
    fl: Seq<FlightView>,
    ticket: u64,
    payload: (u32, u32, Seq<u8>),
) -> (Seq<EntryView>, Seq<FlightView>, Option<Seq<char>>) {
    match flight_index(fl, ticket) {
        Some(j) => {
            let f = fl[j];
            (
                objs.push(resident_entry(f.reference, f.location, false, payload)),
                fl.remove(j),
                Some(f.reference),
            )
        },
        None => (objs, fl, None),
    }
}

/// Draining a batch of completions, front to back.
pub open spec fn spec_receive_all(
    objs: Seq<EntryView>,
    fl: Seq<FlightView>,
    completions: Seq<(u64, (u32, u32, Seq<u8>))>,
) -> (Seq<EntryView>, Seq<FlightView>, Seq<Seq<char>>)
    decreases completions.len(),
{
    if completions.len() == 0 {
        (objs, fl, Seq::empty())
    } else {
        let step = spec_receive_one(objs, fl, completions[0].0, completions[0].1);
        let rest = spec_receive_all(step.0, step.1, completions.drop_first());
        (
            rest.0,
            rest.1,
            match step.2 {
                Some(r) => seq![r] + rest.2,
                None => rest.2,
            },
        )
    }
}

/// Synchronous load: decode on the calling thread and promote at once.
/// Fails on a known reference or undecodable bytes, leaving the registry
/// unchanged.
pub open spec fn spec_sync_load(
    objs: Seq<EntryView>,
    fl: Seq<FlightView>,
    reference: Seq<char>,
    location: Seq<char>,
    bytes: Seq<u8>,
    is_font: bool,
) -> (Seq<EntryView>, bool) {
    if has_entry(objs, reference) || has_flight(fl, reference) {
        (objs, false)
    } else {
        match decoded_view(bytes) {
            Some(payload) => (objs.push(resident_entry(reference, location, is_font, payload)), true),
            None => (objs, false),
        }
    }
}

/// The image a texture lookup returns: the payload of the unique entry
/// with this reference, when that entry is a resident texture.
pub open spec fn lookup_texture(objs: Seq<EntryView>, reference: Seq<char>) -> Option<
    (u32, u32, Seq<u8>),
> {
    match entry_index(objs, reference) {
        Some(i) => {
            if !objs[i].is_font {
                objs[i].image
            } else {
                None
            }
        },
        None => None,
    }
}

/// The image a font lookup returns.
pub open spec fn lookup_font(objs: Seq<EntryView>, reference: Seq<char>) -> Option<
    (u32, u32, Seq<u8>),
> {
    match entry_index(objs, reference) {
        Some(i) => {
            if objs[i].is_font {
                objs[i].image
            } else {
                None
            }
        },
        None => None,
    }
}

/// The device image a registry entry holds, if it is resident.
pub open spec fn object_image(o: LoadableObject) -> Option<GpuImage> {
    match o.object_type {
        ObjectType::Texture(opt) => opt,
        ObjectType::Font(opt) => opt,
    }
}

/// Every resident image among `objs` is a live device image in
/// shader-read layout on `gpu`, and no two entries share an image.
pub open spec fn objects_valid_in(objs: Seq<LoadableObject>, gpu: GpuContext) -> bool {
    &&& forall|i: int|
        0 <= i < objs.len() ==> match #[trigger] object_image(objs[i]) {
            Some(img) => img.spec_id() < gpu.num_images() && gpu.image_is_live(img.spec_id())
                && gpu.layout_of(img.spec_id()) is ShaderReadOnlyOptimal,
            None => true,
        }
    &&& forall|i: int, j: int|
        0 <= i < j < objs.len() ==> match (
            #[trigger] object_image(objs[i]),
            #[trigger] object_image(objs[j]),
        ) {
            (Some(a), Some(b)) => a.spec_id() != b.spec_id(),
            _ => true,
        }
}

/// Removing an entry keeps the rest valid.
pub proof fn lemma_objects_valid_remove(objs: Seq<LoadableObject>, i: int, gpu: GpuContext)
    requires
        objects_valid_in(objs, gpu),
        0 <= i < objs.len(),
    ensures
        objects_valid_in(objs.remove(i), gpu),
{
    let objs2 = objs.remove(i);
    assert forall|k: int|
        0 <= k < objs2.len() implies match #[trigger] object_image(objs2[k]) {
        Some(img) => img.spec_id() < gpu.num_images() && gpu.image_is_live(img.spec_id())
            && gpu.layout_of(img.spec_id()) is ShaderReadOnlyOptimal,
        None => true,
    } by {
        let k0 = if k < i { k } else { k + 1 };
        assert(objs2[k] == objs[k0]);
        assert(match object_image(objs[k0]) {
            Some(img) => img.spec_id() < gpu.num_images() && gpu.image_is_live(img.spec_id())
                && gpu.layout_of(img.spec_id()) is ShaderReadOnlyOptimal,
            None => true,
        });
    }
    assert forall|a: int, b: int|
        0 <= a < b < objs2.len() implies match (
        #[trigger] object_image(objs2[a]),
        #[trigger] object_image(objs2[b]),
    ) {
        (Some(x), Some(y)) => x.spec_id() != y.spec_id(),
        _ => true,
    } by {
        let a0 = if a < i { a } else { a + 1 };
        let b0 = if b < i { b } else { b + 1 };
        assert(objs2[a] == objs[a0] && objs2[b] == objs[b0]);
        assert(match (object_image(objs[a0]), object_image(objs[b0])) {
            (Some(x), Some(y)) => x.spec_id() != y.spec_id(),
            _ => true,
        });
    }
}

/// Appending an entry without a resident image keeps the set valid.
pub proof fn lemma_objects_valid_push_pending(
    objs: Seq<LoadableObject>,
    o: LoadableObject,
    gpu: GpuContext,
)
    requires
        objects_valid_in(objs, gpu),
        object_image(o) is None,
    ensures
        objects_valid_in(objs.push(o), gpu),
{
    let objs2 = objs.push(o);
    assert forall|k: int|
        0 <= k < objs2.len() implies match #[trigger] object_image(objs2[k]) {
        Some(img) => img.spec_id() < gpu.num_images() && gpu.image_is_live(img.spec_id())
            && gpu.layout_of(img.spec_id()) is ShaderReadOnlyOptimal,
        None => true,
    } by {
        if k < objs.len() {
            assert(objs2[k] == objs[k]);
            assert(match object_image(objs[k]) {
                Some(img) => img.spec_id() < gpu.num_images() && gpu.image_is_live(img.spec_id())
                    && gpu.layout_of(img.spec_id()) is ShaderReadOnlyOptimal,
                None => true,
            });
        } else {
            assert(objs2[k] == o);
        }
    }
    assert forall|a: int, b: int|
        0 <= a < b < objs2.len() implies match (
        #[trigger] object_image(objs2[a]),
        #[trigger] object_image(objs2[b]),
    ) {
        (Some(x), Some(y)) => x.spec_id() != y.spec_id(),
        _ => true,
    } by {
        if b < objs.len() {
            assert(objs2[a] == objs[a] && objs2[b] == objs[b]);
            assert(match (object_image(objs[a]), object_image(objs[b])) {
                (Some(x), Some(y)) => x.spec_id() != y.spec_id(),
                _ => true,
            });
        } else {
            assert(objs2[a] == objs[a] && objs2[b] == o);
        }
    }
}

/// Appending an entry whose image is fresh on the extended device keeps
/// the set valid: the old images persist unchanged below the old image
/// count, and the new image lies at or above it.
pub proof fn lemma_objects_valid_push_fresh(
    objs: Seq<LoadableObject>,
    o: LoadableObject,
    gpu_old: GpuContext,
    gpu_new: GpuContext,
)
    requires
        objects_valid_in(objs, gpu_old),
        gpu_new.num_images() >= gpu_old.num_images(),
        forall|i: usize|
            i < gpu_old.num_images() ==> #[trigger] gpu_new.layout_of(i) == gpu_old.layout_of(i)
                && gpu_new.image_is_live(i) == gpu_old.image_is_live(i),
        object_image(o) matches Some(img) && img.spec_id() >= gpu_old.num_images()
            && img.spec_id() < gpu_new.num_images() && gpu_new.image_is_live(img.spec_id())
            && gpu_new.layout_of(img.spec_id()) is ShaderReadOnlyOptimal,
    ensures
        objects_valid_in(objs.push(o), gpu_new),
{
    let objs2 = objs.push(o);
    assert forall|k: int|
        0 <= k < objs2.len() implies match #[trigger] object_image(objs2[k]) {
        Some(img) => img.spec_id() < gpu_new.num_images() && gpu_new.image_is_live(img.spec_id())
            && gpu_new.layout_of(img.spec_id()) is ShaderReadOnlyOptimal,
        None => true,
    } by {
        if k < objs.len() {
            assert(objs2[k] == objs[k]);
            match object_image(objs[k]) {
                Some(img) => {
                    assert(img.spec_id() < gpu_old.num_images());
                    assert(gpu_new.layout_of(img.spec_id()) == gpu_old.layout_of(img.spec_id()));
                    assert(gpu_new.image_is_live(img.spec_id()) == gpu_old.image_is_live(
                        img.spec_id(),
                    ));
                },
                None => {},
            }
        } else {
            assert(objs2[k] == o);
        }
    }
    assert forall|a: int, b: int|
        0 <= a < b < objs2.len() implies match (
        #[trigger] object_image(objs2[a]),
        #[trigger] object_image(objs2[b]),
    ) {
        (Some(x), Some(y)) => x.spec_id() != y.spec_id(),
        _ => true,
    } by {
        if b < objs.len() {
            assert(objs2[a] == objs[a] && objs2[b] == objs[b]);
            assert(match (object_image(objs[a]), object_image(objs[b])) {
                (Some(x), Some(y)) => x.spec_id() != y.spec_id(),
                _ => true,
            });
        } else {
            assert(objs2[a] == objs[a] && objs2[b] == o);
            match object_image(objs[a]) {
                Some(x) => {
                    assert(x.spec_id() < gpu_old.num_images());
                },
                None => {},
            }
        }
    }
}

/// Well-formedness of the registry views: references unique across
/// entries and in-flight decodes, tickets unique and below `next`.
pub open spec fn views_wf(objs: Seq<EntryView>, fl: Seq<FlightView>, next: u64) -> bool {
    &&& forall|i: int, j: int|
        0 <= i < j < objs.len() ==> objs[i].reference != objs[j].reference
    &&& forall|i: int, j: int|
        0 <= i < j < fl.len() ==> fl[i].reference != fl[j].reference && fl[i].ticket != fl[
            j
        ].ticket
    &&& forall|i: int, j: int|
        0 <= i < objs.len() && 0 <= j < fl.len() ==> objs[i].reference != fl[j].reference
    &&& forall|j: int| 0 <= j < fl.len() ==> (#[trigger] fl[j].ticket) < next
}

/// Appending a fresh entry keeps the registry well-formed.
pub proof fn lemma_views_wf_push_entry(
    objs: Seq<EntryView>,
    fl: Seq<FlightView>,
    next: u64,
    e: EntryView,
)
    requires
        views_wf(objs, fl, next),
        !has_entry(objs, e.reference),
        !has_flight(fl, e.reference),
    ensures
        views_wf(objs.push(e), fl, next),
{
    let objs2 = objs.push(e);
    assert forall|i: int, j: int|
        0 <= i < j < objs2.len() implies objs2[i].reference != objs2[j].reference by {
        if j < objs.len() {
            assert(objs2[i] == objs[i] && objs2[j] == objs[j]);
        } else {
            assert(objs2[i] == objs[i] && objs2[j] == e);
            if objs[i].reference == e.reference {
                assert(has_entry(objs, e.reference));
            }
        }
    }
    assert forall|i: int, j: int|
        0 <= i < objs2.len() && 0 <= j < fl.len() implies objs2[i].reference != fl[
        j
    ].reference by {
        if i < objs.len() {
            assert(objs2[i] == objs[i]);
        } else {
            assert(objs2[i] == e);
            if e.reference == fl[j].reference {
                assert(has_flight(fl, e.reference));
            }
        }
    }
}

/// Moving entry `i` into the in-flight set under a fresh ticket keeps the
/// registry well-formed.
pub proof fn lemma_views_wf_dispatch(
    objs: Seq<EntryView>,
    fl: Seq<FlightView>,
    next: u64,
    i: int,
)
    requires
        views_wf(objs, fl, next),
        0 <= i < objs.len(),
        next < u64::MAX,
    ensures
        views_wf(
            objs.remove(i),
            fl.push(
                FlightView {
                    ticket: next,
                    reference: objs[i].reference,
                    location: objs[i].location,
                },
            ),
            (next + 1) as u64,
        ),
{
    let objs2 = objs.remove(i);
    let f = FlightView { ticket: next, reference: objs[i].reference, location: objs[i].location };
    let fl2 = fl.push(f);
    assert forall|a: int, b: int|
        0 <= a < b < objs2.len() implies objs2[a].reference != objs2[b].reference by {
        let a0 = if a < i { a } else { a + 1 };
        let b0 = if b < i { b } else { b + 1 };
        assert(objs2[a] == objs[a0] && objs2[b] == objs[b0]);
    }
    assert forall|a: int, b: int|
        0 <= a < b < fl2.len() implies fl2[a].reference != fl2[b].reference && fl2[a].ticket
            != fl2[b].ticket by {
        if b < fl.len() {
            assert(fl2[a] == fl[a] && fl2[b] == fl[b]);
        } else {
            assert(fl2[a] == fl[a] && fl2[b] == f);
        }
    }
    assert forall|a: int, b: int|
        0 <= a < objs2.len() && 0 <= b < fl2.len() implies objs2[a].reference != fl2[
        b
    ].reference by {
        let a0 = if a < i { a } else { a + 1 };
        assert(objs2[a] == objs[a0]);
        if b < fl.len() {
            assert(fl2[b] == fl[b]);
        } else {
            assert(fl2[b] == f);
            assert(a0 != i);
        }
    }
    assert forall|b: int| 0 <= b < fl2.len() implies (#[trigger] fl2[b].ticket) < next + 1 by {
        if b < fl.len() {
            assert(fl2[b] == fl[b]);
        }
    }
}

/// Promoting in-flight decode `j` to a resident entry keeps the registry
/// well-formed.
pub proof fn lemma_views_wf_receive(
    objs: Seq<EntryView>,
    fl: Seq<FlightView>,
    next: u64,
    j: int,
    payload: (u32, u32, Seq<u8>),
)
    requires
        views_wf(objs, fl, next),
        0 <= j < fl.len(),
    ensures
        views_wf(
            objs.push(resident_entry(fl[j].reference, fl[j].location, false, payload)),
            fl.remove(j),
            next,
        ),
{
    let e = resident_entry(fl[j].reference, fl[j].location, false, payload);
    let objs2 = objs.push(e);
    let fl2 = fl.remove(j);
    assert forall|a: int, b: int|
        0 <= a < b < objs2.len() implies objs2[a].reference != objs2[b].reference by {
        if b < objs.len() {
            assert(objs2[a] == objs[a] && objs2[b] == objs[b]);
        } else {
            assert(objs2[a] == objs[a] && objs2[b] == e);
        }
    }
    assert forall|a: int, b: int|
        0 <= a < b < fl2.len() implies fl2[a].reference != fl2[b].reference && fl2[a].ticket
            != fl2[b].ticket by {
        let a0 = if a < j { a } else { a + 1 };
        let b0 = if b < j { b } else { b + 1 };
        assert(fl2[a] == fl[a0] && fl2[b] == fl[b0]);
    }
    assert forall|a: int, b: int|
        0 <= a < objs2.len() && 0 <= b < fl2.len() implies objs2[a].reference != fl2[
        b
    ].reference by {
        let b0 = if b < j { b } else { b + 1 };
        assert(fl2[b] == fl[b0]);
        if a < objs.len() {
            assert(objs2[a] == objs[a]);
        } else {
            assert(objs2[a] == e);
            assert(b0 != j);
        }
    }
    assert forall|b: int| 0 <= b < fl2.len() implies (#[trigger] fl2[b].ticket) < next by {
        let b0 = if b < j { b } else { b + 1 };
        assert(fl2[b] == fl[b0]);
    }
}

/// Removing an entry keeps the registry views well-formed.
pub proof fn lemma_views_wf_remove_entry(
    objs: Seq<EntryView>,
    fl: Seq<FlightView>,
    next: u64,
    i: int,
)
    requires
        views_wf(objs, fl, next),
        0 <= i < objs.len(),
    ensures
        views_wf(objs.remove(i), fl, next),
{
    let objs2 = objs.remove(i);
    assert forall|a: int, b: int|
        0 <= a < b < objs2.len() implies objs2[a].reference != objs2[b].reference by {
        let a0 = if a < i { a } else { a + 1 };
        let b0 = if b < i { b } else { b + 1 };
        assert(objs2[a] == objs[a0] && objs2[b] == objs[b0]);
    }
    assert forall|a: int, b: int|
        0 <= a < objs2.len() && 0 <= b < fl.len() implies objs2[a].reference != fl[
        b
    ].reference by {
        let a0 = if a < i { a } else { a + 1 };
        assert(objs2[a] == objs[a0]);
    }
}

/// Dispatching a fresh reference straight into the in-flight set keeps
/// the registry views well-formed.
pub proof fn lemma_views_wf_push_flight(
    objs: Seq<EntryView>,
    fl: Seq<FlightView>,
    next: u64,
    reference: Seq<char>,
    location: Seq<char>,
)
    requires
        views_wf(objs, fl, next),
        !has_entry(objs, reference),
        !has_flight(fl, reference),
        next < u64::MAX,
    ensures
        views_wf(objs, fl.push(FlightView { ticket: next, reference, location }), (next + 1) as u64),
{
    let f = FlightView { ticket: next, reference, location };
    let fl2 = fl.push(f);
    assert forall|a: int, b: int|
        0 <= a < b < fl2.len() implies fl2[a].reference != fl2[b].reference && fl2[a].ticket
            != fl2[b].ticket by {
        if b < fl.len() {
            assert(fl2[a] == fl[a] && fl2[b] == fl[b]);
        } else {
            assert(fl2[a] == fl[a] && fl2[b] == f);
            if fl[a].reference == reference {
                assert(has_flight(fl, reference));
            }
        }
    }
    assert forall|a: int, b: int|
        0 <= a < objs.len() && 0 <= b < fl2.len() implies objs[a].reference != fl2[
        b
    ].reference by {
        if b < fl.len() {
            assert(fl2[b] == fl[b]);
        } else {
            assert(fl2[b] == f);
            if objs[a].reference == reference {
                assert(has_entry(objs, reference));
            }
        }
    }
    assert forall|b: int| 0 <= b < fl2.len() implies (#[trigger] fl2[b].ticket) < next + 1 by {
        if b < fl.len() {
            assert(fl2[b] == fl[b]);
        }
    }
}

/// Registry of loadable objects plus the set of in-flight decodes. The
/// render thread owns this exclusively; workers only ever produce
/// `DecodedImage` payloads that come back through `recieve_objects`.
pub struct ResourceManager {
    objects: Vec<LoadableObject>,
    in_flight: Vec<PendingDecode>,
    next_ticket: u64,
}

struct PendingDecode {
    ticket: u64,
    reference: String,
    location: String,
}

impl ResourceManager {
    /// The registry as ghost entry views.
    pub closed spec fn spec_objects(self) -> Seq<EntryView> {
        self.objects@.map_values(|o: LoadableObject| entry_view(o))
    }

    /// The in-flight decodes as ghost views.
    pub closed spec fn spec_in_flight(self) -> Seq<FlightView> {
        self.in_flight@.map_values(
            |p: PendingDecode|
                FlightView { ticket: p.ticket, reference: p.reference@, location: p.location@ },
        )
    }

    pub closed spec fn spec_next_ticket(self) -> u64 {
        self.next_ticket
    }

    /// A reference is known once registered, whether pending, decoding or
    /// resident.
    pub open spec fn knows(self, reference: Seq<char>) -> bool {
        has_entry(self.spec_objects(), reference) || has_flight(self.spec_in_flight(), reference)
    }

    /// References are unique across entries and in-flight decodes, and
    /// tickets are unique and below the next one to be handed out.
    pub open spec fn wf(self) -> bool {
        views_wf(self.spec_objects(), self.spec_in_flight(), self.spec_next_ticket())
    }

    /// Every resident image in the registry is a live device image in
    /// shader-read layout on `gpu`, and no two entries share an image.
    pub closed spec fn valid_in(self, gpu: GpuContext) -> bool {
        objects_valid_in(self.objects@, gpu)
    }

    pub fn new() -> (r: ResourceManager)
        ensures
            r.wf(),
            r.spec_objects() == Seq::<EntryView>::empty(),
            r.spec_in_flight() == Seq::<FlightView>::empty(),
            r.spec_next_ticket() == 0,
            forall|gpu: GpuContext| r.valid_in(gpu),
    {
        let r = ResourceManager { objects: Vec::new(), in_flight: Vec::new(), next_ticket: 0 };
        proof {
            assert(r.spec_objects() =~= Seq::<EntryView>::empty());
            assert(r.spec_in_flight() =~= Seq::<FlightView>::empty());
        }
        r
    }

    /// True once no decode is outstanding.
    pub fn pending_objects_loaded(&self) -> (r: bool)
        ensures
            r == (self.spec_in_flight().len() == 0),
    {
        self.in_flight.len() == 0
    }

    /// True when `reference` is still free, as the registration check
    /// demands.
    fn check_object(&self, reference: &String) -> (r: bool)
        requires
            self.wf(),
        ensures
            r == !self.knows(reference@),
    {
        let mut i: usize = 0;
        while i < self.objects.len()
            invariant
                i <= self.objects@.len(),
                forall|k: int| 0 <= k < i ==> self.spec_objects()[k].reference != reference@,
            decreases self.objects@.len() - i,
        {
            proof {
                assert(self.spec_objects()[i as int].reference == self.objects@[i as int].reference@);
            }
            if self.objects[i].reference.eq(reference) {
                proof {
                    assert(has_entry(self.spec_objects(), reference@));
                }
                return false;
            }
            i = i + 1;
        }
        let mut j: usize = 0;
        while j < self.in_flight.len()
            invariant
                j <= self.in_flight@.len(),
                forall|k: int| 0 <= k < j ==> self.spec_in_flight()[k].reference != reference@,
                forall|k: int|
                    0 <= k < self.spec_objects().len() ==> self.spec_objects()[k].reference
                        != reference@,
            decreases self.in_flight@.len() - j,
        {
            proof {
                assert(self.spec_in_flight()[j as int].reference
                    == self.in_flight@[j as int].reference@);
            }
            if self.in_flight[j].reference.eq(reference) {
                proof {
                    assert(has_flight(self.spec_in_flight(), reference@));
                }
                return false;
            }
            j = j + 1;
        }
        proof {
            assert(!has_entry(self.spec_objects(), reference@));
            assert(!has_flight(self.spec_in_flight(), reference@));
        }
        true
    }

    /// Register a texture under a fresh reference without any I/O or
    /// decode work. A duplicate reference is rejected before any decode
    /// could be dispatched, leaving the registry untouched.
    pub fn insert_unloaded_texture(&mut self, reference: String, location: String) -> (r: Result<
        (),
        LoadError,
    >)
        requires
            old(self).wf(),
        ensures
            final(self).wf(),
            r is Ok <==> !old(self).knows(reference@),
            r is Err ==> r == Result::<(), LoadError>::Err(LoadError::DuplicateReference),
            final(self).spec_objects() == spec_register(
                old(self).spec_objects(),
                old(self).spec_in_flight(),
                reference@,
                location@,
            ).0,
            final(self).spec_in_flight() == old(self).spec_in_flight(),
            final(self).spec_next_ticket() == old(self).spec_next_ticket(),
            forall|gpu: GpuContext| old(self).valid_in(gpu) ==> final(self).valid_in(gpu),
    {
        let ghost refv = reference@;
        let ghost locv = location@;
        if !self.check_object(&reference) {
            return Err(LoadError::DuplicateReference);
        }
        self.objects.push(
            LoadableObject {
                reference,
                location,
                loaded: false,
                object_type: ObjectType::Texture(None),
            },
        );
        proof {
            assert(self.spec_objects() =~= old(self).spec_objects().push(
                pending_texture_entry(refv, locv),
            ));
            assert(self.spec_in_flight() =~= old(self).spec_in_flight());
            lemma_views_wf_push_entry(
                old(self).spec_objects(),
                old(self).spec_in_flight(),
                old(self).spec_next_ticket(),
                pending_texture_entry(refv, locv),
            );
            assert forall|gpu: GpuContext| old(self).valid_in(gpu) implies self.valid_in(
                gpu,
            ) by {
                let o = self.objects@.last();
                assert(self.objects@ =~= old(self).objects@.push(o));
                assert(object_image(o) is None);
                lemma_objects_valid_push_pending(old(self).objects@, o, gpu);
            }
        }
        Ok(())
    }

    /// Dispatch the decode of a registered-but-unloaded texture: the entry
    /// moves into the in-flight set and the returned task tells the worker
    /// pool what to read and decode. Unknown or already-resident
    /// references are a no-op.
    pub fn load_texture_from_reference(&mut self, reference: String) -> (r: Option<DecodeTask>)
        requires
            old(self).wf(),
            old(self).spec_next_ticket() < u64::MAX,
        ensures
            final(self).wf(),
            ({
                let d = spec_dispatch(
                    old(self).spec_objects(),
                    old(self).spec_in_flight(),
                    reference@,
                    old(self).spec_next_ticket(),
                );
                &&& final(self).spec_objects() == d.0
                &&& final(self).spec_in_flight() == d.1
                &&& (r is Some <==> d.2)
                &&& (r matches Some(t) ==> t.ticket == old(self).spec_next_ticket())
                &&& final(self).spec_next_ticket() == if d.2 {
                    old(self).spec_next_ticket() + 1
                } else {
                    old(self).spec_next_ticket() as int
                }
            }),
            forall|gpu: GpuContext| old(self).valid_in(gpu) ==> final(self).valid_in(gpu),
    {
        let ghost objs0 = self.spec_objects();
        let ghost fl0 = self.spec_in_flight();
        let mut i: usize = 0;
        while i < self.objects.len()
            invariant
                *self == *old(self),
                old(self).wf(),
                old(self).spec_next_ticket() < u64::MAX,
                self.spec_objects() == objs0,
                self.spec_in_flight() == fl0,
                self.objects@.len() == objs0.len(),
                i <= objs0.len(),
                forall|k: int| 0 <= k < i ==> objs0[k].reference != reference@,
            decreases objs0.len() - i,
        {
            proof {
                assert(self.spec_objects()[i as int] == entry_view(self.objects@[i as int]));
            }
            if self.objects[i].reference.eq(&reference) {
                proof {
                    assert(has_entry(objs0, reference@));
                    let w = choose|k: int| 0 <= k < objs0.len() && objs0[k].reference == reference@;
                    if w < i as int {
                        assert(objs0[w].reference != objs0[i as int].reference);
                    }
                    if (i as int) < w {
                        assert(objs0[i as int].reference != objs0[w].reference);
                    }
                    assert(w == i as int);
                    assert(entry_index(objs0, reference@) == Some(i as int));
                }
                let is_unloaded_texture = !self.objects[i].loaded && matches!(
                    self.objects[i].object_type,
                    ObjectType::Texture(_),
                );
                proof {
                    assert(is_unloaded_texture == (!objs0[i as int].loaded && !objs0[
                        i as int].is_font));
                }
                if is_unloaded_texture {
                    let entry = self.objects.remove(i);
                    let ticket = self.next_ticket;
                    self.next_ticket = self.next_ticket + 1;
                    let task_location = entry.location.clone();
                    self.in_flight.push(
                        PendingDecode {
                            ticket,
                            reference: entry.reference,
                            location: entry.location,
                        },
                    );
                    proof {
                        assert(self.spec_objects() =~= objs0.remove(i as int));
                        assert(self.spec_in_flight() =~= fl0.push(
                            FlightView {
                                ticket,
                                reference: objs0[i as int].reference,
                                location: objs0[i as int].location,
                            },
                        ));
                        lemma_views_wf_dispatch(objs0, fl0, ticket, i as int);
                        assert forall|gpu: GpuContext| old(self).valid_in(gpu) implies self
                            .valid_in(gpu) by {
                            assert(self.objects@ =~= old(self).objects@.remove(i as int));
                            lemma_objects_valid_remove(old(self).objects@, i as int, gpu);
                        }
                    }
                    return Some(DecodeTask { ticket, location: task_location });
                } else {
                    return None;
                }
            }
            i = i + 1;
        }
        proof {
            assert(!has_entry(objs0, reference@));
        }
        None
    }

    /// Register and immediately dispatch a texture decode under a fresh
    /// reference.
    pub fn load_texture(&mut self, reference: String, location: String) -> (r: Result<
        DecodeTask,
        LoadError,
    >)
        requires
            old(self).wf(),
            old(self).spec_next_ticket() < u64::MAX,
        ensures
            final(self).wf(),
            r is Ok <==> !old(self).knows(reference@),
            r is Err ==> r == Result::<DecodeTask, LoadError>::Err(LoadError::DuplicateReference)
                && *final(self) == *old(self),
            r matches Ok(t) ==> {
                &&& t.ticket == old(self).spec_next_ticket()
                &&& t.location@ == location@
                &&& final(self).spec_objects() == old(self).spec_objects()
                &&& final(self).spec_in_flight() == old(self).spec_in_flight().push(
                    FlightView {
                        ticket: old(self).spec_next_ticket(),
                        reference: reference@,
                        location: location@,
                    },
                )
                &&& final(self).spec_next_ticket() == old(self).spec_next_ticket() + 1
            },
            forall|gpu: GpuContext| old(self).valid_in(gpu) ==> final(self).valid_in(gpu),
    {
        let ghost refv = reference@;
        let ghost locv = location@;
        if !self.check_object(&reference) {
            return Err(LoadError::DuplicateReference);
        }
        let ticket = self.next_ticket;
        self.next_ticket = self.next_ticket + 1;
        let task_location = location.clone();
        self.in_flight.push(PendingDecode { ticket, reference, location });
        proof {
            assert(self.spec_in_flight() =~= old(self).spec_in_flight().push(
                FlightView { ticket, reference: refv, location: locv },
            ));
            assert(self.spec_objects() =~= old(self).spec_objects());
            lemma_views_wf_push_flight(
                old(self).spec_objects(),
                old(self).spec_in_flight(),
                ticket,
                refv,
                locv,
            );
            assert forall|gpu: GpuContext| old(self).valid_in(gpu) implies self.valid_in(
                gpu,
            ) by {
                assert(self.objects@ == old(self).objects@);
            }
        }
        Ok(DecodeTask { ticket, location: task_location })
    }

    /// Drain completed decodes: for each payload whose ticket is known,
    /// promote it to a device-resident image (the staged upload of the
    /// image module) and record the entry as resident. Returns the
    /// references that became resident, in completion order. Tolerates an
    /// empty batch and unknown tickets.
    pub fn recieve_objects(&mut self, gpu: &mut GpuContext, completions: Vec<(u64, DecodedImage)>) -> (r:
        Vec<String>)
        requires
            old(self).wf(),
            old(gpu).wf(),
            old(self).valid_in(*old(gpu)),
            old(gpu).spec_buffers_created() + completions@.len() <= u64::MAX,
            forall|k: int| 0 <= k < completions@.len() ==> (#[trigger] completions@[k].1).wf(),
        ensures
            final(self).wf(),
            final(gpu).wf(),
            final(self).valid_in(*final(gpu)),
            ({
                let all = spec_receive_all(
                    old(self).spec_objects(),
                    old(self).spec_in_flight(),
                    completions@.map_values(|c: (u64, DecodedImage)| (c.0, c.1.view())),
                );
                &&& final(self).spec_objects() == all.0
                &&& final(self).spec_in_flight() == all.1
                &&& r@.map_values(|s: String| s@) == all.2
            }),
            final(self).spec_next_ticket() == old(self).spec_next_ticket(),
            old(gpu).commands().is_prefix_of(final(gpu).commands()),
            final(gpu).spec_next_token() == old(gpu).spec_next_token(),
            final(gpu).spec_resolved_below() == old(gpu).spec_resolved_below(),
            final(gpu).spec_framebuffers_created() == old(gpu).spec_framebuffers_created(),
            final(gpu).spec_framebuffers_destroyed() == old(gpu).spec_framebuffers_destroyed(),
            forall|i: usize|
                i < old(gpu).num_images() ==> #[trigger] final(gpu).layout_of(i) == old(
                    gpu,
                ).layout_of(i) && final(gpu).image_is_live(i) == old(gpu).image_is_live(i),
            final(gpu).num_images() >= old(gpu).num_images(),
    {
        let ghost comps = completions@.map_values(|c: (u64, DecodedImage)| (c.0, c.1.view()));
        let mut references: Vec<String> = Vec::new();
        let mut remaining = completions;
        proof {
            assert(comps.skip(0) =~= comps);
        }
        let ghost mut done: int = 0;
        while remaining.len() > 0
            invariant
                self.wf(),
                gpu.wf(),
                self.valid_in(*gpu),
                0 <= done <= comps.len(),
                remaining@.map_values(|c: (u64, DecodedImage)| (c.0, c.1.view())) == comps.skip(
                    done,
                ),
                forall|k: int| 0 <= k < remaining@.len() ==> (#[trigger] remaining@[k].1).wf(),
                spec_receive_all(old(self).spec_objects(), old(self).spec_in_flight(), comps)
                    == ({
                    let rest = spec_receive_all(
                        self.spec_objects(),
                        self.spec_in_flight(),
                        comps.skip(done),
                    );
                    (
                        rest.0,
                        rest.1,
                        references@.map_values(|s: String| s@) + rest.2,
                    )
                }),
                self.spec_next_ticket() == old(self).spec_next_ticket(),
                gpu.spec_buffers_created() + remaining@.len() <= u64::MAX,
                old(gpu).commands().is_prefix_of(gpu.commands()),
                gpu.spec_next_token() == old(gpu).spec_next_token(),
                gpu.spec_resolved_below() == old(gpu).spec_resolved_below(),
                gpu.spec_framebuffers_created() == old(gpu).spec_framebuffers_created(),
                gpu.spec_framebuffers_destroyed() == old(gpu).spec_framebuffers_destroyed(),
                forall|i: usize|
                    i < old(gpu).num_images() ==> #[trigger] gpu.layout_of(i) == old(
                        gpu,
                    ).layout_of(i) && gpu.image_is_live(i) == old(gpu).image_is_live(i),
                gpu.num_images() >= old(gpu).num_images(),
            decreases remaining@.len(),
        {
            let (ticket, payload) = remaining.remove(0);
            let ghost pre_objs = self.spec_objects();
            let ghost pre_fl = self.spec_in_flight();
            let got = self.promote_one(gpu, ticket, payload);
            proof {
                let step = spec_receive_one(pre_objs, pre_fl, comps.skip(done)[0].0, comps.skip(
                    done,
                )[0].1);
                assert(comps.skip(done)[0] == comps[done]);
                assert(self.spec_objects() == step.0);
                assert(self.spec_in_flight() == step.1);
                assert(comps.skip(done).drop_first() =~= comps.skip(done + 1));
            }
            match got {
                Some(reference) => {
                    references.push(reference);
                },
                None => {},
            }
            proof {
                done = done + 1;
                assert(remaining@.map_values(|c: (u64, DecodedImage)| (c.0, c.1.view()))
                    =~= comps.skip(done));
                assert(references@.map_values(|s: String| s@) + spec_receive_all(
                    self.spec_objects(),
                    self.spec_in_flight(),
                    comps.skip(done),
                ).2 =~= spec_receive_all(
                    old(self).spec_objects(),
                    old(self).spec_in_flight(),
                    comps,
                ).2);
            }
        }
        proof {
            assert(comps.skip(done) =~= Seq::<(u64, (u32, u32, Seq<u8>))>::empty());
            assert(references@.map_values(|s: String| s@) + Seq::<Seq<char>>::empty()
                =~= references@.map_values(|s: String| s@));
        }
        references
    }

    /// Promote one completed decode; returns the reference that became
    /// resident, or nothing for an unknown ticket.
    fn promote_one(&mut self, gpu: &mut GpuContext, ticket: u64, payload: DecodedImage) -> (r:
        Option<String>)
        requires
            old(self).wf(),
            old(gpu).wf(),
            old(self).valid_in(*old(gpu)),
            old(gpu).spec_buffers_created() < u64::MAX,
            payload.wf(),
        ensures
            final(self).wf(),
            final(gpu).wf(),
            final(self).valid_in(*final(gpu)),
            ({
                let step = spec_receive_one(
                    old(self).spec_objects(),
                    old(self).spec_in_flight(),
                    ticket,
                    payload.view(),
                );
                &&& final(self).spec_objects() == step.0
                &&& final(self).spec_in_flight() == step.1
                &&& (match (r, step.2) {
                    (Some(s), Some(v)) => s@ == v,
                    (None, None) => true,
                    _ => false,
                })
            }),
            final(self).spec_next_ticket() == old(self).spec_next_ticket(),
            old(gpu).commands().is_prefix_of(final(gpu).commands()),
            final(gpu).spec_next_token() == old(gpu).spec_next_token(),
            final(gpu).spec_resolved_below() == old(gpu).spec_resolved_below(),
            final(gpu).spec_framebuffers_created() == old(gpu).spec_framebuffers_created(),
            final(gpu).spec_framebuffers_destroyed() == old(gpu).spec_framebuffers_destroyed(),
            final(gpu).spec_buffers_created() <= old(gpu).spec_buffers_created() + 1,
            forall|i: usize|
                i < old(gpu).num_images() ==> #[trigger] final(gpu).layout_of(i) == old(
                    gpu,
                ).layout_of(i) && final(gpu).image_is_live(i) == old(gpu).image_is_live(i),
            final(gpu).num_images() >= old(gpu).num_images(),
    {
        let ghost objs0 = self.spec_objects();
        let ghost fl0 = self.spec_in_flight();
        let mut j: usize = 0;
        while j < self.in_flight.len()
            invariant
                *self == *old(self),
                *gpu == *old(gpu),
                old(self).wf(),
                old(gpu).wf(),
                old(self).valid_in(*old(gpu)),
                old(gpu).spec_buffers_created() < u64::MAX,
                payload.wf(),
                self.spec_objects() == objs0,
                self.spec_in_flight() == fl0,
                self.in_flight@.len() == fl0.len(),
                j <= fl0.len(),
                forall|k: int| 0 <= k < j ==> fl0[k].ticket != ticket,
            decreases fl0.len() - j,
        {
            proof {
                assert(self.spec_in_flight()[j as int].ticket == self.in_flight@[j as int].ticket);
            }
            if self.in_flight[j].ticket == ticket {
                proof {
                    let w = choose|k: int| 0 <= k < fl0.len() && fl0[k].ticket == ticket;
                    if w < j as int {
                        assert(fl0[w].ticket != fl0[j as int].ticket);
                    }
                    if (j as int) < w {
                        assert(fl0[j as int].ticket != fl0[w].ticket);
                    }
                    assert(w == j as int);
                    assert(flight_index(fl0, ticket) == Some(j as int));
                    assert(fl0[j as int].reference == self.in_flight@[j as int].reference@);
                    assert(fl0[j as int].location == self.in_flight@[j as int].location@);
                }
                let entry = self.in_flight.remove(j);
                let width = payload.width();
                let height = payload.height();
                let ghost pview = payload.view();
                let image = GpuImage::create_from_bytes(
                    gpu,
                    payload.pixels,
                    width,
                    height,
                    ImageFormat::R8G8B8A8Unorm,
                );
                let reference_out = entry.reference.clone();
                self.objects.push(
                    LoadableObject {
                        reference: entry.reference,
                        location: entry.location,
                        loaded: true,
                        object_type: ObjectType::Texture(Some(image)),
                    },
                );
                proof {
                    assert(self.spec_in_flight() =~= fl0.remove(j as int));
                    assert(self.spec_objects() =~= objs0.push(
                        resident_entry(fl0[j as int].reference, fl0[j as int].location, false,
                        pview),
                    ));
                    lemma_views_wf_receive(
                        objs0,
                        fl0,
                        old(self).spec_next_ticket(),
                        j as int,
                        pview,
                    );
                    let o = self.objects@.last();
                    assert(self.objects@ =~= old(self).objects@.push(o));
                    lemma_objects_valid_push_fresh(old(self).objects@, o, *old(gpu), *gpu);
                }
                return Some(reference_out);
            }
            j = j + 1;
        }
        proof {
            if flight_index(fl0, ticket) is Some {
                let w = choose|k: int| 0 <= k < fl0.len() && fl0[k].ticket == ticket;
                assert(fl0[w].ticket != ticket);
            }
        }
        None
    }

    /// Decode on the calling thread and promote at once, blocking until
    /// the object is resident. Rejects a duplicate reference; fails loudly,
    /// naming the path, when the bytes do not decode.
    pub fn sync_load_texture(
        &mut self,
        reference: String,
        location: String,
        bytes: &Vec<u8>,
        gpu: &mut GpuContext,
    ) -> (r: Result<(), LoadError>)
        requires
            old(self).wf(),
            old(gpu).wf(),
            old(self).valid_in(*old(gpu)),
            old(gpu).spec_buffers_created() < u64::MAX,
        ensures
            final(self).wf(),
            final(gpu).wf(),
            final(self).valid_in(*final(gpu)),
            ({
                let s = spec_sync_load(
                    old(self).spec_objects(),
                    old(self).spec_in_flight(),
                    reference@,
                    location@,
                    bytes@,
                    false,
                );
                &&& final(self).spec_objects() == s.0
                &&& (r is Ok <==> s.1)
            }),
            final(self).spec_in_flight() == old(self).spec_in_flight(),
            final(self).spec_next_ticket() == old(self).spec_next_ticket(),
            r == Result::<(), LoadError>::Err(LoadError::DuplicateReference) <==> old(self).knows(
                reference@,
            ),
            r matches Err(LoadError::DecodeFailed(p)) ==> p@ == location@ && !old(self).knows(
                reference@,
            ) && decoded_view(bytes@) is None,
            old(gpu).commands().is_prefix_of(final(gpu).commands()),
            final(gpu).spec_next_token() == old(gpu).spec_next_token(),
            final(gpu).spec_resolved_below() == old(gpu).spec_resolved_below(),
            final(gpu).spec_framebuffers_created() == old(gpu).spec_framebuffers_created(),
            final(gpu).spec_framebuffers_destroyed() == old(gpu).spec_framebuffers_destroyed(),
            forall|i: usize|
                i < old(gpu).num_images() ==> #[trigger] final(gpu).layout_of(i) == old(
                    gpu,
                ).layout_of(i) && final(gpu).image_is_live(i) == old(gpu).image_is_live(i),
            final(gpu).num_images() >= old(gpu).num_images(),
    {
        self.sync_load_inner(reference, location, bytes, gpu, false)
    }

    /// Synchronously load a font's atlas texture; the glyph metrics stay
    /// with the caller.
    pub fn sync_load_font(
        &mut self,
        reference: String,
        location: String,
        bytes: &Vec<u8>,
        gpu: &mut GpuContext,
    ) -> (r: Result<(), LoadError>)
        requires
            old(self).wf(),
            old(gpu).wf(),
            old(self).valid_in(*old(gpu)),
            old(gpu).spec_buffers_created() < u64::MAX,
        ensures
            final(self).wf(),
            final(gpu).wf(),
            final(self).valid_in(*final(gpu)),
            ({
                let s = spec_sync_load(
                    old(self).spec_objects(),
                    old(self).spec_in_flight(),
                    reference@,
                    location@,
                    bytes@,
                    true,
                );
                &&& final(self).spec_objects() == s.0
                &&& (r is Ok <==> s.1)
            }),
            final(self).spec_in_flight() == old(self).spec_in_flight(),
            final(self).spec_next_ticket() == old(self).spec_next_ticket(),
            r == Result::<(), LoadError>::Err(LoadError::DuplicateReference) <==> old(self).knows(
                reference@,
            ),
            r matches Err(LoadError::DecodeFailed(p)) ==> p@ == location@ && !old(self).knows(
                reference@,
            ) && decoded_view(bytes@) is None,
            old(gpu).commands().is_prefix_of(final(gpu).commands()),
            final(gpu).spec_next_token() == old(gpu).spec_next_token(),
            final(gpu).spec_resolved_below() == old(gpu).spec_resolved_below(),
            final(gpu).spec_framebuffers_created() == old(gpu).spec_framebuffers_created(),
            final(gpu).spec_framebuffers_destroyed() == old(gpu).spec_framebuffers_destroyed(),
            forall|i: usize|
                i < old(gpu).num_images() ==> #[trigger] final(gpu).layout_of(i) == old(
                    gpu,
                ).layout_of(i) && final(gpu).image_is_live(i) == old(gpu).image_is_live(i),
            final(gpu).num_images() >= old(gpu).num_images(),
    {
        self.sync_load_inner(reference, location, bytes, gpu, true)
    }

    fn sync_load_inner(
        &mut self,
        reference: String,
        location: String,
        bytes: &Vec<u8>,
        gpu: &mut GpuContext,
        is_font: bool,
    ) -> (r: Result<(), LoadError>)
        requires
            old(self).wf(),
            old(gpu).wf(),
            old(self).valid_in(*old(gpu)),
            old(gpu).spec_buffers_created() < u64::MAX,
        ensures
            final(self).wf(),
            final(gpu).wf(),
            final(self).valid_in(*final(gpu)),
            ({
                let s = spec_sync_load(
                    old(self).spec_objects(),
                    old(self).spec_in_flight(),
                    reference@,
                    location@,
                    bytes@,
                    is_font,
                );
                &&& final(self).spec_objects() == s.0
                &&& (r is Ok <==> s.1)
            }),
            final(self).spec_in_flight() == old(self).spec_in_flight(),
            final(self).spec_next_ticket() == old(self).spec_next_ticket(),
            r == Result::<(), LoadError>::Err(LoadError::DuplicateReference) <==> old(self).knows(
                reference@,
            ),
            r matches Err(LoadError::DecodeFailed(p)) ==> p@ == location@ && !old(self).knows(
                reference@,
            ) && decoded_view(bytes@) is None,
            old(gpu).commands().is_prefix_of(final(gpu).commands()),
            final(gpu).spec_next_token() == old(gpu).spec_next_token(),
            final(gpu).spec_resolved_below() == old(gpu).spec_resolved_below(),
            final(gpu).spec_framebuffers_created() == old(gpu).spec_framebuffers_created(),
            final(gpu).spec_framebuffers_destroyed() == old(gpu).spec_framebuffers_destroyed(),
            forall|i: usize|
                i < old(gpu).num_images() ==> #[trigger] final(gpu).layout_of(i) == old(
                    gpu,
                ).layout_of(i) && final(gpu).image_is_live(i) == old(gpu).image_is_live(i),
            final(gpu).num_images() >= old(gpu).num_images(),
    {
        let ghost refv = reference@;
        let ghost locv = location@;
        if !self.check_object(&reference) {
            return Err(LoadError::DuplicateReference);
        }
        let decoded = DecodedImage::from_bytes(bytes);
        match decoded {
            Some(payload) => {
                let width = payload.width();
                let height = payload.height();
                let ghost pview = payload.view();
                let image = GpuImage::create_from_bytes(
                    gpu,
                    payload.pixels,
                    width,
                    height,
                    ImageFormat::R8G8B8A8Unorm,
                );
                let object_type = if is_font {
                    ObjectType::Font(Some(image))
                } else {
                    ObjectType::Texture(Some(image))
                };
                self.objects.push(
                    LoadableObject { reference, location, loaded: true, object_type },
                );
                proof {
                    assert(self.spec_objects() =~= old(self).spec_objects().push(
                        resident_entry(refv, locv, is_font, pview),
                    ));
                    assert(self.spec_in_flight() =~= old(self).spec_in_flight());
                    lemma_views_wf_push_entry(
                        old(self).spec_objects(),
                        old(self).spec_in_flight(),
                        old(self).spec_next_ticket(),
                        resident_entry(refv, locv, is_font, pview),
                    );
                    let o = self.objects@.last();
                    assert(self.objects@ =~= old(self).objects@.push(o));
                    lemma_objects_valid_push_fresh(old(self).objects@, o, *old(gpu), *gpu);
                }
                Ok(())
            },
            None => Err(LoadError::DecodeFailed(location)),
        }
    }

    /// Read-only texture lookup: `None` for unknown, pending or in-flight
    /// references — callers substitute a fallback rather than failing.
    /// Deterministic in the registry state, so repeated calls agree.
    pub fn get_texture(&mut self, reference: String) -> (r: Option<GpuImage>)
        requires
            old(self).wf(),
        ensures
            *final(self) == *old(self),
            (r is Some <==> lookup_texture(old(self).spec_objects(), reference@) is Some),
            r matches Some(img) ==> lookup_texture(old(self).spec_objects(), reference@) == Some(
                img.payload_view(),
            ) && (forall|gpu: GpuContext|
                old(self).valid_in(gpu) ==> img.spec_id() < gpu.num_images() && gpu.image_is_live(
                    img.spec_id(),
                ) && gpu.layout_of(img.spec_id()) is ShaderReadOnlyOptimal),
    {
        self.find_image(reference, false)
    }

    /// Read-only font-texture lookup, with the same contract shape as
    /// `get_texture`.
    pub fn get_font(&mut self, reference: String) -> (r: Option<GpuImage>)
        requires
            old(self).wf(),
        ensures
            *final(self) == *old(self),
            (r is Some <==> lookup_font(old(self).spec_objects(), reference@) is Some),
            r matches Some(img) ==> lookup_font(old(self).spec_objects(), reference@) == Some(
                img.payload_view(),
            ) && (forall|gpu: GpuContext|
                old(self).valid_in(gpu) ==> img.spec_id() < gpu.num_images() && gpu.image_is_live(
                    img.spec_id(),
                ) && gpu.layout_of(img.spec_id()) is ShaderReadOnlyOptimal),
    {
        self.find_image(reference, true)
    }

    fn find_image(&mut self, reference: String, want_font: bool) -> (r: Option<GpuImage>)
        requires
            old(self).wf(),
        ensures
            *final(self) == *old(self),
            ({
                let looked = if want_font {
                    lookup_font(old(self).spec_objects(), reference@)
                } else {
                    lookup_texture(old(self).spec_objects(), reference@)
                };
                &&& (r is Some <==> looked is Some)
                &&& (r matches Some(img) ==> looked == Some(img.payload_view()) && (
                forall|gpu: GpuContext|
                    old(self).valid_in(gpu) ==> img.spec_id() < gpu.num_images()
                        && gpu.image_is_live(img.spec_id()) && gpu.layout_of(img.spec_id())
                        is ShaderReadOnlyOptimal))
            }),
    {
        let ghost objs0 = self.spec_objects();
        let mut i: usize = 0;
        while i < self.objects.len()
            invariant
                *self == *old(self),
                old(self).wf(),
                self.spec_objects() == objs0,
                self.objects@.len() == objs0.len(),
                i <= objs0.len(),
                forall|k: int| 0 <= k < i ==> objs0[k].reference != reference@,
            decreases objs0.len() - i,
        {
            proof {
                assert(self.spec_objects()[i as int] == entry_view(self.objects@[i as int]));
            }
            if self.objects[i].reference.eq(&reference) {
                proof {
                    assert(has_entry(objs0, reference@));
                    let w = choose|k: int| 0 <= k < objs0.len() && objs0[k].reference == reference@;
                    if w < i as int {
                        assert(objs0[w].reference != objs0[i as int].reference);
                    }
                    if (i as int) < w {
                        assert(objs0[i as int].reference != objs0[w].reference);
                    }
                    assert(w == i as int);
                    assert(entry_index(objs0, reference@) == Some(i as int));
                }
                let is_font_entry = matches!(self.objects[i].object_type, ObjectType::Font(_));
                if is_font_entry != want_font {
                    return None;
                }
                let out: Option<GpuImage> = match &self.objects[i].object_type {
                    ObjectType::Texture(Some(image)) => Some(image.duplicate()),
                    ObjectType::Font(Some(image)) => Some(image.duplicate()),
                    _ => None,
                };
                proof {
                    match &out {
                        Some(img) => {
                            assert(object_image(self.objects@[i as int]) == Some(*img));
                            assert(objs0[i as int].image == Some(img.payload_view()));
                            assert forall|gpu: GpuContext|
                                old(self).valid_in(gpu) implies img.spec_id() < gpu.num_images()
                                    && gpu.image_is_live(img.spec_id()) && gpu.layout_of(
                                img.spec_id(),
                            ) is ShaderReadOnlyOptimal by {
                                assert(match object_image(old(self).objects@[i as int]) {
                                    Some(im) => im.spec_id() < gpu.num_images()
                                        && gpu.image_is_live(im.spec_id()) && gpu.layout_of(
                                        im.spec_id(),
                                    ) is ShaderReadOnlyOptimal,
                                    None => true,
                                });
                            }
                        },
                        None => {
                            assert(objs0[i as int].image is None);
                        },
                    }
                }
                return out;
            }
            i = i + 1;
        }
        proof {
            assert(!has_entry(objs0, reference@));
        }
        None
    }

    /// Every resident texture, paired with its reference.
    pub fn get_all_textures(&self) -> (r: Vec<(String, GpuImage)>)
        requires
            self.wf(),
        ensures
            forall|k: int|
                0 <= k < r@.len() ==> lookup_texture(
                    self.spec_objects(),
                    (#[trigger] r@[k]).0@,
                ) == Some(r@[k].1.payload_view()),
            forall|i: int|
                0 <= i < self.spec_objects().len() && (#[trigger] self.spec_objects()[i]).loaded
                    && !self.spec_objects()[i].is_font && self.spec_objects()[i].image is Some
                    ==> exists|k: int|
                    0 <= k < r@.len() && (#[trigger] r@[k]).0@ == self.spec_objects()[i].reference
                        && Some(r@[k].1.payload_view()) == self.spec_objects()[i].image,
    {
        let mut result: Vec<(String, GpuImage)> = Vec::new();
        let mut i: usize = 0;
        while i < self.objects.len()
            invariant
                self.wf(),
                i <= self.objects@.len(),
                forall|k: int|
                    0 <= k < result@.len() ==> lookup_texture(
                        self.spec_objects(),
                        (#[trigger] result@[k]).0@,
                    ) == Some(result@[k].1.payload_view()),
                forall|j: int|
                    0 <= j < i && (#[trigger] self.spec_objects()[j]).loaded && !self
                        .spec_objects()[j].is_font && self.spec_objects()[j].image is Some
                        ==> exists|k: int|
                        0 <= k < result@.len() && (#[trigger] result@[k]).0@ == self
                            .spec_objects()[j].reference && Some(result@[k].1.payload_view())
                            == self.spec_objects()[j].image,
            decreases self.objects@.len() - i,
        {
            proof {
                assert(self.spec_objects()[i as int] == entry_view(self.objects@[i as int]));
            }
            if self.objects[i].loaded {
                match &self.objects[i].object_type {
                    ObjectType::Texture(Some(image)) => {
                        let reference = self.objects[i].reference.clone();
                        let image_out = image.duplicate();
                        proof {
                            let objs0 = self.spec_objects();
                            assert(objs0[i as int].reference == reference@);
                            assert(has_entry(objs0, reference@));
                            let w = choose|k: int|
                                0 <= k < objs0.len() && objs0[k].reference == reference@;
                            if w < i as int {
                                assert(objs0[w].reference != objs0[i as int].reference);
                            }
                            if (i as int) < w {
                                assert(objs0[i as int].reference != objs0[w].reference);
                            }
                            assert(w == i as int);
                            assert(entry_index(objs0, reference@) == Some(i as int));
                            assert(objs0[i as int].image == Some(image_out.payload_view()));
                        }
                        let ghost pre_result = result@;
                        result.push((reference, image_out));
                        proof {
                            let objs = self.spec_objects();
                            let last = result@.len() - 1;
                            assert((result@[last]).0@ == objs[i as int].reference);
                            assert(Some(result@[last].1.payload_view()) == objs[i as int].image);
                            assert forall|j: int|
                                0 <= j < i + 1 && (#[trigger] objs[j]).loaded && !objs[j].is_font
                                    && objs[j].image is Some implies exists|k: int|
                                0 <= k < result@.len() && (#[trigger] result@[k]).0@ == objs[
                                    j
                                ].reference && Some(result@[k].1.payload_view()) == objs[
                                    j
                                ].image by {
                                if j < i as int {
                                    let k = choose|k: int|
                                        0 <= k < pre_result.len() && (#[trigger] pre_result[
                                            k
                                        ]).0@ == objs[j].reference && Some(pre_result[
                                            k
                                        ].1.payload_view()) == objs[j].image;
                                    assert(result@[k] == pre_result[k]);
                                } else {
                                    assert((result@[last]).0@ == objs[j].reference);
                                }
                            }
                        }
                    },
                    _ => {},
                }
            }
            i = i + 1;
        }
        result
    }

    /// Remove an entry outright, resident or not. The caller is
    /// responsible for having destroyed any image it held.
    pub fn _remove_object(&mut self, reference: String)
        requires
            old(self).wf(),
        ensures
            final(self).wf(),
            !has_entry(final(self).spec_objects(), reference@),
            final(self).spec_in_flight() == old(self).spec_in_flight(),
            final(self).spec_next_ticket() == old(self).spec_next_ticket(),
            ({
                match entry_index(old(self).spec_objects(), reference@) {
                    Some(i) => final(self).spec_objects() == old(self).spec_objects().remove(i),
                    None => final(self).spec_objects() == old(self).spec_objects(),
                }
            }),
            forall|gpu: GpuContext| old(self).valid_in(gpu) ==> final(self).valid_in(gpu),
    {
        let ghost objs0 = self.spec_objects();
        let mut i: usize = 0;
        while i < self.objects.len()
            invariant
                old(self).wf(),
                self.spec_objects() == objs0,
                self.objects@.len() == objs0.len(),
                self.spec_in_flight() == old(self).spec_in_flight(),
                self.spec_next_ticket() == old(self).spec_next_ticket(),
                *self == *old(self),
                i <= objs0.len(),
                forall|k: int| 0 <= k < i ==> objs0[k].reference != reference@,
            decreases objs0.len() - i,
        {
            proof {
                assert(self.spec_objects()[i as int].reference == self.objects@[i as int].reference@);
            }
            if self.objects[i].reference.eq(&reference) {
                proof {
                    assert(has_entry(objs0, reference@));
                    let w = choose|k: int| 0 <= k < objs0.len() && objs0[k].reference == reference@;
                    if w < i as int {
                        assert(objs0[w].reference != objs0[i as int].reference);
                    }
                    if (i as int) < w {
                        assert(objs0[i as int].reference != objs0[w].reference);
                    }
                    assert(w == i as int);
                    assert(entry_index(objs0, reference@) == Some(i as int));
                }
                let _ = self.objects.remove(i);
                proof {
                    assert(self.spec_objects() =~= objs0.remove(i as int));
                    lemma_views_wf_remove_entry(
                        objs0,
                        old(self).spec_in_flight(),
                        old(self).spec_next_ticket(),
                        i as int,
                    );
                    assert forall|k: int|
                        0 <= k < self.spec_objects().len() implies self.spec_objects()[
                        k
                    ].reference != reference@ by {
                        let k0 = if k < i as int {
                            k
                        } else {
                            k + 1
                        };
                        assert(self.spec_objects()[k] == objs0[k0]);
                        if k0 < i as int {
                            assert(objs0[k0].reference != objs0[i as int].reference);
                        } else {
                            assert(objs0[i as int].reference != objs0[k0].reference);
                        }
                    }
                    assert(!has_entry(self.spec_objects(), reference@));
                    assert forall|gpu: GpuContext| old(self).valid_in(gpu) implies self.valid_in(
                        gpu,
                    ) by {
                        assert(self.objects@ =~= old(self).objects@.remove(i as int));
                        lemma_objects_valid_remove(old(self).objects@, i as int, gpu);
                    }
                }
                return ;
            }
            i = i + 1;
        }
        proof {
            assert(!has_entry(objs0, reference@));
        }
    }

    /// Tear down every resident image. Only valid once the device is
    /// idle; afterwards the registry is empty.
    pub fn destroy(&mut self, gpu: &mut GpuContext)
        requires
            old(self).wf(),
            old(gpu).wf(),
            old(self).valid_in(*old(gpu)),
            old(gpu).is_idle(),
        ensures
            final(self).wf(),
            final(gpu).wf(),
            final(self).spec_objects() == Seq::<EntryView>::empty(),
            final(self).spec_in_flight() == old(self).spec_in_flight(),
            final(gpu).commands() == old(gpu).commands(),
            final(gpu).is_idle(),
            final(gpu).counters_unchanged(*old(gpu)),
            final(gpu).num_images() == old(gpu).num_images(),
    {
        while self.objects.len() > 0
            invariant
                self.wf(),
                gpu.wf(),
                self.valid_in(*gpu),
                self.spec_in_flight() == old(self).spec_in_flight(),
                self.spec_next_ticket() == old(self).spec_next_ticket(),
                gpu.commands() == old(gpu).commands(),
                gpu.is_idle(),
                gpu.counters_unchanged(*old(gpu)),
                gpu.num_images() == old(gpu).num_images(),
            decreases self.objects@.len(),
        {
            let ghost pre = *self;
            let ghost pre_gpu = *gpu;
            let ghost last = pre.objects@.len() - 1;
            let entry = self.objects.pop();
            proof {
                assert(self.objects@ =~= pre.objects@.remove(last));
                assert(self.spec_objects() =~= pre.spec_objects().remove(last));
                lemma_views_wf_remove_entry(
                    pre.spec_objects(),
                    pre.spec_in_flight(),
                    pre.spec_next_ticket(),
                    last,
                );
                lemma_objects_valid_remove(pre.objects@, last, *gpu);
            }
            match entry {
                Some(o) => {
                    proof {
                        assert(o == pre.objects@[last]);
                    }
                    match o.object_type {
                        ObjectType::Texture(Some(image)) => {
                            proof {
                                assert(object_image(pre.objects@[last]) == Some(image));
                            }
                            image.destroy(gpu);
                            proof {
                                lemma_destroy_keeps_others_valid(
                                    self.objects@,
                                    image,
                                    pre.objects@,
                                    last,
                                    pre_gpu,
                                    *gpu,
                                );
                            }
                        },
                        ObjectType::Font(Some(image)) => {
                            proof {
                                assert(object_image(pre.objects@[last]) == Some(image));
                            }
                            image.destroy(gpu);
                            proof {
                                lemma_destroy_keeps_others_valid(
                                    self.objects@,
                                    image,
                                    pre.objects@,
                                    last,
                                    pre_gpu,
                                    *gpu,
                                );
                            }
                        },
                        _ => {},
                    }
                },
                None => {},
            }
        }
        proof {
            assert(self.spec_objects() =~= Seq::<EntryView>::empty());
        }
    }
}

/// After destroying the image of the removed entry, every other entry's
/// image — distinct by the registry's validity — is still live with its
/// layout unchanged.
proof fn lemma_destroy_keeps_others_valid(
    objs: Seq<LoadableObject>,
    destroyed: GpuImage,
    pre_objs: Seq<LoadableObject>,
    last: int,
    gpu_pre: GpuContext,
    gpu_post: GpuContext,
)
    requires
        objects_valid_in(pre_objs, gpu_pre),
        0 <= last < pre_objs.len(),
        objs == pre_objs.remove(last),
        last == pre_objs.len() - 1,
        object_image(pre_objs[last]) == Some(destroyed),
        gpu_post.num_images() == gpu_pre.num_images(),
        forall|i: usize|
            i < gpu_pre.num_images() ==> #[trigger] gpu_post.layout_of(i) == gpu_pre.layout_of(i),
        forall|i: usize|
            i < gpu_pre.num_images() && i != destroyed.spec_id() ==> #[trigger] gpu_post
                .image_is_live(i) == gpu_pre.image_is_live(i),
    ensures
        objects_valid_in(objs, gpu_post),
{
    assert forall|k: int|
        0 <= k < objs.len() implies match #[trigger] object_image(objs[k]) {
        Some(img) => img.spec_id() < gpu_post.num_images() && gpu_post.image_is_live(img.spec_id())
            && gpu_post.layout_of(img.spec_id()) is ShaderReadOnlyOptimal,
        None => true,
    } by {
        assert(objs[k] == pre_objs[k]);
        match object_image(pre_objs[k]) {
            Some(img) => {
                assert(match object_image(pre_objs[k]) {
                    Some(im) => im.spec_id() < gpu_pre.num_images() && gpu_pre.image_is_live(
                        im.spec_id(),
                    ) && gpu_pre.layout_of(im.spec_id()) is ShaderReadOnlyOptimal,
                    None => true,
                });
                assert(match (object_image(pre_objs[k]), object_image(pre_objs[last])) {
                    (Some(x), Some(y)) => x.spec_id() != y.spec_id(),
                    _ => true,
                });
                assert(img.spec_id() != destroyed.spec_id());
            },
            None => {},
        }
    }
    assert forall|a: int, b: int|
        0 <= a < b < objs.len() implies match (
        #[trigger] object_image(objs[a]),
        #[trigger] object_image(objs[b]),
    ) {
        (Some(x), Some(y)) => x.spec_id() != y.spec_id(),
        _ => true,
    } by {
        assert(objs[a] == pre_objs[a] && objs[b] == pre_objs[b]);
        assert(match (object_image(pre_objs[a]), object_image(pre_objs[b])) {
            (Some(x), Some(y)) => x.spec_id() != y.spec_id(),
            _ => true,
        });
    }
}

/// A registered-but-not-yet-resident reference looks up as `None`: until
/// the drain reports it, callers substitute their fallback resource.
pub proof fn lemma_pending_reference_not_found(objs: Seq<EntryView>, reference: Seq<char>)
    requires
        forall|i: int, j: int| 0 <= i < j < objs.len() ==> objs[i].reference != objs[j].reference,
        forall|i: int|
            0 <= i < objs.len() && (#[trigger] objs[i].reference) == reference ==> objs[i].image
                is None,
    ensures
        lookup_texture(objs, reference) is None,
        lookup_font(objs, reference) is None,
{
    if has_entry(objs, reference) {
        let i = choose|i: int| 0 <= i < objs.len() && objs[i].reference == reference;
        assert(objs[i].image is None);
    }
}

/// Once the drain has reported a reference, its texture lookup returns
/// exactly the decoded payload that was promoted, and — the lookup being a
/// function of the registry state — keeps doing so on repeated calls.
pub proof fn lemma_drained_reference_resident(
    objs: Seq<EntryView>,
    fl: Seq<FlightView>,
    next: u64,
    ticket: u64,
    payload: (u32, u32, Seq<u8>),
    j: int,
)
    requires
        views_wf(objs, fl, next),
        0 <= j < fl.len(),
        fl[j].ticket == ticket,
        forall|k: int| 0 <= k < fl.len() && k != j ==> fl[k].ticket != ticket,
    ensures
        spec_receive_one(objs, fl, ticket, payload).2 == Some(fl[j].reference),
        lookup_texture(spec_receive_one(objs, fl, ticket, payload).0, fl[j].reference) == Some(
            payload,
        ),
{
    let w = choose|i: int| 0 <= i < fl.len() && fl[i].ticket == ticket;
    assert(w == j);
    let objs2 = spec_receive_one(objs, fl, ticket, payload).0;
    assert(objs2 == objs.push(resident_entry(fl[j].reference, fl[j].location, false, payload)));
    let n = objs.len() as int;
    assert(objs2[n].reference == fl[j].reference);
    assert(has_entry(objs2, fl[j].reference));
    let e = choose|i: int| 0 <= i < objs2.len() && objs2[i].reference == fl[j].reference;
    if e < n {
        assert(objs2[e] == objs[e]);
        assert(objs[e].reference != fl[j].reference);
    }
    assert(e == n);
    assert(entry_index(objs2, fl[j].reference) == Some(n));
    assert(objs2[n].image == Some(payload));
}

/// The synchronous and the asynchronous loading path converge: for a fresh
/// reference and bytes that decode, registering, dispatching and draining
/// the completed decode yields exactly the registry state that one
/// synchronous load yields. Decoding is deterministic in the bytes, so the
/// two paths see the same payload.
pub proof fn lemma_sync_async_converge(
    objs: Seq<EntryView>,
    fl: Seq<FlightView>,
    reference: Seq<char>,
    location: Seq<char>,
    bytes: Seq<u8>,
    ticket: u64,
)
    requires
        !has_entry(objs, reference),
        !has_flight(fl, reference),
        decoded_view(bytes) is Some,
        forall|i: int| 0 <= i < fl.len() ==> (#[trigger] fl[i].ticket) != ticket,
        forall|i: int, j: int| 0 <= i < j < objs.len() ==> objs[i].reference != objs[j].reference,
    ensures
        ({
            let registered = spec_register(objs, fl, reference, location).0;
            let dispatched = spec_dispatch(registered, fl, reference, ticket);
            let drained = spec_receive_all(
                dispatched.0,
                dispatched.1,
                seq![(ticket, decoded_view(bytes)->Some_0)],
            );
            let synced = spec_sync_load(objs, fl, reference, location, bytes, false);
            &&& drained.0 == synced.0
            &&& drained.1 == fl
            &&& drained.2 == seq![reference]
        }),
{
    let registered = spec_register(objs, fl, reference, location).0;
    assert(registered == objs.push(pending_texture_entry(reference, location)));
    let n = objs.len() as int;
    assert(registered[n].reference == reference);
    assert(has_entry(registered, reference));
    let w = choose|i: int| 0 <= i < registered.len() && registered[i].reference == reference;
    assert forall|i: int| 0 <= i < n implies registered[i].reference != reference by {
        assert(registered[i] == objs[i]);
        if objs[i].reference == reference {
            assert(has_entry(objs, reference));
        }
    }
    assert(w == n);
    let dispatched = spec_dispatch(registered, fl, reference, ticket);
    assert(dispatched.0 =~= objs);
    let newfl = fl.push(FlightView { ticket, reference, location });
    assert(dispatched.1 == newfl);
    assert(dispatched.2);

    let payload = decoded_view(bytes)->Some_0;
    let comps = seq![(ticket, payload)];
    let m = fl.len() as int;
    assert(newfl[m].ticket == ticket);
    let wf2 = choose|i: int| 0 <= i < newfl.len() && newfl[i].ticket == ticket;
    assert forall|i: int| 0 <= i < m implies newfl[i].ticket != ticket by {
        assert(newfl[i] == fl[i]);
    }
    assert(wf2 == m);
    let step = spec_receive_one(objs, newfl, ticket, payload);
    assert(step.0 == objs.push(resident_entry(reference, location, false, payload)));
    assert(step.1 =~= fl);
    assert(step.2 == Some(reference));
    assert(comps.drop_first() =~= Seq::<(u64, (u32, u32, Seq<u8>))>::empty());
    assert(comps[0].0 == ticket && comps[0].1 == payload);
    let after_one = spec_receive_all(step.0, step.1, comps.drop_first());
    assert(after_one == (step.0, step.1, Seq::<Seq<char>>::empty()));
    let drained = spec_receive_all(dispatched.0, dispatched.1, comps);
    assert(drained == (
        after_one.0,
        after_one.1,
        match step.2 {
            Some(r) => seq![r] + after_one.2,
            None => after_one.2,
        },
    ));
    assert(drained.0 == step.0);
    assert(drained.1 == step.1);
    assert(drained.2 =~= seq![reference]);
    let synced = spec_sync_load(objs, fl, reference, location, bytes, false);
    assert(synced.0 == objs.push(resident_entry(reference, location, false, payload)));
}

} // verus!
