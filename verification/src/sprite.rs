//! The sprite atlas: decoding a sheet once, slicing it into named, oriented
//! animation clips on a fixed grid, and memoizing the result keyed by the
//! source identity.

use vstd::prelude::*;

use crate::clock::{Animate, IDLE_CYCLE, RUNNING_CYCLE};
use crate::automaton::CharacterState;
use crate::ErrorKind;
use image::GenericImageView;

verus! {

use vstd::string::StringSliceAdditionalSpecFns;

/// Columns of the fixed atlas grid: a sheet is always sliced sevenfold
/// across.
pub const ATLAS_COLUMNS: u32 = 7;

/// Rows of the fixed atlas grid: a sheet is always sliced elevenfold down.
pub const ATLAS_ROWS: u32 = 11;

#[verifier::external_type_specification]
#[verifier::external_body]
pub struct ExDynamicImage(image::DynamicImage);

/// What decoding a byte string yields: the dimensions of the decoded
/// image, or nothing when the bytes are not a decodable image. The decode
/// depends on the bytes alone, so this is a function of them; what the
/// pixels are is not stated anywhere, only carried opaquely.
pub uninterp spec fn spec_decoded_dims(bytes: Seq<u8>) -> Option<(u32, u32)>;

/// Relies on image::load_from_memory, which decodes an image from raw
/// file bytes — guessing the format, failing on malformed input — as a
/// function of the bytes alone, and on image::GenericImageView::dimensions
/// to read the decoded image's width and height, named `spec_decoded_dims`.
#[verifier::external_body]
fn decode_image(bytes: &Vec<u8>) -> (r: Option<(image::DynamicImage, u32, u32)>)
    ensures
        r is Some <==> spec_decoded_dims(bytes@) is Some,
        r matches Some(t) ==> Some((t.1, t.2)) == spec_decoded_dims(bytes@),
{
    match image::load_from_memory(bytes.as_slice()) {
        Ok(img) => {
            let (width, height) = img.dimensions();
            Some((img, width, height))
        },
        Err(_) => None,
    }
}

/// Relies on image::DynamicImage::crop_imm: a copy of the rectangle at
/// `(x, y)` of size `w` by `h`, clamped to the image bounds.
#[verifier::external_body]
fn crop_image(img: &image::DynamicImage, x: u32, y: u32, w: u32, h: u32) -> image::DynamicImage {
    img.crop_imm(x, y, w, h)
}

/// Relies on image::DynamicImage::flipv: the image mirrored vertically.
#[verifier::external_body]
fn flip_vertical(img: &image::DynamicImage) -> image::DynamicImage {
    img.flipv()
}

/// Relies on image::DynamicImage::fliph: the image mirrored horizontally.
#[verifier::external_body]
fn flip_horizontal(img: &image::DynamicImage) -> image::DynamicImage {
    img.fliph()
}

/// A rectangular region of the source sheet, in pixels.
#[derive(Debug, Copy, Clone, PartialEq, Eq, Structural)]
pub struct ClipRect {
    pub x: u32,
    pub y: u32,
    pub width: u32,
    pub height: u32,
}

/// Which variant of a clip the renderer asks for.
#[derive(Debug, Copy, Clone, PartialEq, Eq, Structural)]
pub enum ClipOrientation {
    Original,
    Flipped,
}

/// One animation frame: the region it was cut from, the cut-out pixels in
/// the renderer's orientation, and the horizontally mirrored variant for
/// mirror-eligible clips. The region also carries the clip's aspect ratio
/// as the exact pair (width, height). Immutable once computed.
pub struct Clip {
    pub rect: ClipRect,
    pub original: image::DynamicImage,
    pub flipped: Option<image::DynamicImage>,
}

impl Clip {
    /// The flipped variant is stored exactly for mirror-eligible clips.
    pub open spec fn has_flipped(&self) -> bool {
        self.flipped is Some
    }

    /// Cuts the region `rect` out of `source`, mirrors it vertically into
    /// the renderer's bottom-up orientation, and adds the horizontally
    /// mirrored variant when the clip is mirror-eligible.
    pub fn new(source: &image::DynamicImage, rect: ClipRect, mirrored: bool) -> (c: Clip)
        ensures
            c.rect == rect,
            c.has_flipped() == mirrored,
    {
        let cropped = crop_image(source, rect.x, rect.y, rect.width, rect.height);
        let original = flip_vertical(&cropped);
        let flipped = if mirrored {
            Some(flip_horizontal(&original))
        } else {
            None
        };
        Clip { rect, original, flipped }
    }

    /// The pixels of the requested variant: the oriented image itself, or
    /// the stored mirrored image. The flipped variant exists only for
    /// mirror-eligible clips, so the caller must not ask for it otherwise.
    pub fn get(&self, orientation: ClipOrientation) -> (r: &image::DynamicImage)
        requires
            orientation == ClipOrientation::Flipped ==> self.has_flipped(),
        ensures
            orientation == ClipOrientation::Original ==> r == &self.original,
            orientation == ClipOrientation::Flipped ==> self.flipped == Some(*r),
    {
        match orientation {
            ClipOrientation::Original => &self.original,
            ClipOrientation::Flipped => self.flipped.as_ref().unwrap(),
        }
    }
}

/// The two animations this atlas stores.
#[derive(Debug, Copy, Clone, PartialEq, Eq, Structural)]
pub enum AnimationName {
    Idle,
    Running,
}

/// Width of one grid cell of a sheet `width` pixels across.
pub open spec fn spec_cell_width(width: u32) -> u32 {
    (width as int / ATLAS_COLUMNS as int) as u32
}

/// Height of one grid cell of a sheet `height` pixels down.
pub open spec fn spec_cell_height(height: u32) -> u32 {
    (height as int / ATLAS_ROWS as int) as u32
}

/// Region of the `i`-th idle clip: the first four cells of the top row.
pub open spec fn spec_idle_rect(width: u32, height: u32, i: int) -> ClipRect {
    ClipRect {
        x: (i * spec_cell_width(width)) as u32,
        y: 0,
        width: spec_cell_width(width),
        height: spec_cell_height(height),
    }
}

/// Region of the `i`-th running clip: six cells of the second row,
/// starting at the second column.
pub open spec fn spec_running_rect(width: u32, height: u32, i: int) -> ClipRect {
    ClipRect {
        x: ((i + 1) * spec_cell_width(width)) as u32,
        y: spec_cell_height(height),
        width: spec_cell_width(width),
        height: spec_cell_height(height),
    }
}

/// A sliced sheet: the source dimensions and the named clip sequences.
/// Immutable once constructed; entities refer to it through the cache by
/// an identifying key and never own a copy.
pub struct SpriteSheet {
    pub width: u32,
    pub height: u32,
    pub idle: Vec<Clip>,
    pub running: Vec<Clip>,
}

/// A well-formed sheet follows the fixed atlas layout: four idle clips on
/// the top row, six running clips on the second row, every clip cut on the
/// grid and mirror-eligible.
pub open spec fn wf_sheet(s: &SpriteSheet) -> bool {
    &&& s.width >= ATLAS_COLUMNS
    &&& s.height >= ATLAS_ROWS
    &&& s.idle@.len() == IDLE_CYCLE
    &&& s.running@.len() == RUNNING_CYCLE
    &&& forall|i: int|
        0 <= i < s.idle@.len() ==> (#[trigger] s.idle@[i]).rect == spec_idle_rect(
            s.width,
            s.height,
            i,
        ) && s.idle@[i].has_flipped()
    &&& forall|i: int|
        0 <= i < s.running@.len() ==> (#[trigger] s.running@[i]).rect == spec_running_rect(
            s.width,
            s.height,
            i,
        ) && s.running@[i].has_flipped()
}

impl SpriteSheet {
    /// The clips stored for one animation.
    pub open spec fn spec_clips(&self, name: AnimationName) -> Seq<Clip> {
        match name {
            AnimationName::Idle => self.idle@,
            AnimationName::Running => self.running@,
        }
    }

    /// Slices a decoded sheet of the given dimensions on the fixed grid.
    /// A sheet smaller than one grid cell per column and row cannot hold
    /// the layout and is rejected as a fatal asset fault.
    pub fn from_image(img: &image::DynamicImage, width: u32, height: u32) -> (r: Result<
        SpriteSheet,
        ErrorKind,
    >)
        ensures
            width >= ATLAS_COLUMNS && height >= ATLAS_ROWS <==> r is Ok,
            r matches Ok(s) ==> wf_sheet(&s) && s.width == width && s.height == height,
            r matches Err(e) ==> e == ErrorKind::AssetLoad,
    {
        if width < ATLAS_COLUMNS || height < ATLAS_ROWS {
            return Err(ErrorKind::AssetLoad);
        }
        let cell_w = width / ATLAS_COLUMNS;
        let cell_h = height / ATLAS_ROWS;
        proof {
            assert(cell_w == spec_cell_width(width));
            assert(cell_h == spec_cell_height(height));
            assert(7 * (width as int / 7) <= width) by (nonlinear_arith);
            assert(11 * (height as int / 11) <= height) by (nonlinear_arith);
        }
        let mut idle: Vec<Clip> = Vec::new();
        let mut i: u32 = 0;
        while i < IDLE_CYCLE
            invariant
                i <= IDLE_CYCLE,
                idle@.len() == i,
                7 * (cell_w as int) <= width,
                cell_w == spec_cell_width(width),
                cell_h == spec_cell_height(height),
                forall|j: int|
                    0 <= j < i ==> (#[trigger] idle@[j]).rect == spec_idle_rect(width, height, j)
                        && idle@[j].has_flipped(),
            decreases IDLE_CYCLE - i,
        {
            proof {
                assert((i as int) * (cell_w as int) <= 7 * (cell_w as int)) by (nonlinear_arith)
                    requires
                        i < 4,
                ;
            }
            let rect = ClipRect { x: i * cell_w, y: 0, width: cell_w, height: cell_h };
            idle.push(Clip::new(img, rect, true));
            i = i + 1;
        }
        let mut running: Vec<Clip> = Vec::new();
        let mut i: u32 = 0;
        while i < RUNNING_CYCLE
            invariant
                i <= RUNNING_CYCLE,
                running@.len() == i,
                7 * (cell_w as int) <= width,
                cell_w == spec_cell_width(width),
                cell_h == spec_cell_height(height),
                forall|j: int|
                    0 <= j < i ==> (#[trigger] running@[j]).rect == spec_running_rect(
                        width,
                        height,
                        j,
                    ) && running@[j].has_flipped(),
            decreases RUNNING_CYCLE - i,
        {
            proof {
                assert(((i + 1) as int) * (cell_w as int) <= 7 * (cell_w as int)) by (nonlinear_arith)
                    requires
                        i < 6,
                ;
            }
            let rect = ClipRect { x: (i + 1) * cell_w, y: cell_h, width: cell_w, height: cell_h };
            running.push(Clip::new(img, rect, true));
            i = i + 1;
        }
        Ok(SpriteSheet { width, height, idle, running })
    }

    /// Looks one clip up by animation and frame index. The index must lie
    /// inside the stored range; one past it is a programming-contract
    /// violation, reported as `IndexOutOfRange`.
    pub fn clip_at(&self, name: AnimationName, it: usize) -> (r: Result<&Clip, ErrorKind>)
        ensures
            it < self.spec_clips(name).len() <==> r is Ok,
            r matches Ok(c) ==> *c == self.spec_clips(name)[it as int],
            r matches Err(e) ==> e == ErrorKind::IndexOutOfRange,
    {
        let clips: &Vec<Clip> = match name {
            AnimationName::Idle => &self.idle,
            AnimationName::Running => &self.running,
        };
        if it < clips.len() {
            Ok(&clips[it])
        } else {
            Err(ErrorKind::IndexOutOfRange)
        }
    }

    /// Looks one clip up by its animation name as a string, `"idle"` or
    /// `"running"`; an unknown name is reported as `NotFound`.
    pub fn get_clip(&self, key: &str, it: usize) -> (r: Result<&Clip, ErrorKind>)
        ensures
            spec_key_name(key.spec_bytes()) matches Some(name) ==> r == self.spec_lookup(name, it),
            spec_key_name(key.spec_bytes()) is None ==> r == Err::<&Clip, ErrorKind>(
                ErrorKind::NotFound,
            ),
    {
        match key_name(key) {
            Some(name) => self.clip_at(name, it),
            None => Err(ErrorKind::NotFound),
        }
    }

    /// What `clip_at` returns, as one spec value.
    pub open spec fn spec_lookup(&self, name: AnimationName, it: usize) -> Result<
        &Clip,
        ErrorKind,
    > {
        if it < self.spec_clips(name).len() {
            Ok(&self.spec_clips(name)[it as int])
        } else {
            Err(ErrorKind::IndexOutOfRange)
        }
    }
}

/// The UTF-8 bytes of the key `"idle"`.
pub open spec fn spec_idle_key() -> Seq<u8> {
    seq![105u8, 100u8, 108u8, 101u8]
}

/// The UTF-8 bytes of the key `"running"`.
pub open spec fn spec_running_key() -> Seq<u8> {
    seq![114u8, 117u8, 110u8, 110u8, 105u8, 110u8, 103u8]
}

/// The animation named by a key string, given as its UTF-8 bytes: `"idle"`,
/// `"running"`, or unknown.
pub open spec fn spec_key_name(key: Seq<u8>) -> Option<AnimationName> {
    if key == spec_idle_key() {
        Some(AnimationName::Idle)
    } else if key == spec_running_key() {
        Some(AnimationName::Running)
    } else {
        None
    }
}

/// Decodes an animation key string into the closed name enum.
fn key_name(key: &str) -> (r: Option<AnimationName>)
    ensures
        r == spec_key_name(key.spec_bytes()),
{
    let idle: [u8; 4] = [105u8, 100u8, 108u8, 101u8];
    let running: [u8; 7] = [114u8, 117u8, 110u8, 110u8, 105u8, 110u8, 103u8];
    let bytes = key.as_bytes();
    if bytes_eq(bytes, idle.as_slice()) {
        proof {
            assert(key.spec_bytes() =~= spec_idle_key());
        }
        Some(AnimationName::Idle)
    } else if bytes_eq(bytes, running.as_slice()) {
        proof {
            assert(key.spec_bytes() =~= spec_running_key());
        }
        Some(AnimationName::Running)
    } else {
        proof {
            assert(idle@ =~= spec_idle_key());
            assert(running@ =~= spec_running_key());
        }
        None
    }
}

/// Compares two byte slices element by element.
fn bytes_eq(a: &[u8], b: &[u8]) -> (r: bool)
    ensures
        r == (a@ == b@),
{
    if a.len() != b.len() {
        return false;
    }
    let mut i: usize = 0;
    while i < a.len()
        invariant
            i <= a@.len(),
            a@.len() == b@.len(),
            forall|j: int| 0 <= j < i ==> a@[j] == b@[j],
        decreases a@.len() - i,
    {
        if a[i] != b[i] {
            return false;
        }
        i = i + 1;
    }
    proof {
        assert(a@ =~= b@);
    }
    true
}

/// Decodes a sprite sheet from raw file bytes and slices it on the fixed
/// grid. This succeeds exactly when the bytes decode to an image at least
/// one grid cell per column and row; a missing, malformed or undersized
/// source is a fatal construction fault, reported as `AssetLoad`, with no
/// partial-sheet fallback.
pub fn source(bytes: &Vec<u8>) -> (r: Result<SpriteSheet, ErrorKind>)
    ensures
        r is Ok <==> (spec_decoded_dims(bytes@) matches Some(d) && d.0 >= ATLAS_COLUMNS && d.1
            >= ATLAS_ROWS),
        r matches Ok(s) ==> wf_sheet(&s) && Some((s.width, s.height)) == spec_decoded_dims(bytes@),
        r matches Err(e) ==> e == ErrorKind::AssetLoad,
{
    match decode_image(bytes) {
        Some((img, width, height)) => SpriteSheet::from_image(&img, width, height),
        None => Err(ErrorKind::AssetLoad),
    }
}

/// The one sheet the cache holds, with the source identity it was decoded
/// from.
pub struct ResidentSheet {
    pub identity: String,
    pub sheet: SpriteSheet,
}

/// The sprite atlas cache: a memo of capacity one, keyed by source
/// identity. It owns the canonical copy of the resident sheet; inserting a
/// new entry drops the previous one entirely.
pub struct SpriteAtlasCache {
    pub resident: Option<ResidentSheet>,
}

/// Whatever sheet is resident follows the atlas layout.
pub open spec fn wf_cache(c: SpriteAtlasCache) -> bool {
    c.resident matches Some(r) ==> wf_sheet(&r.sheet)
}

impl SpriteAtlasCache {
    /// An empty cache: no sheet resident.
    pub fn new() -> (c: SpriteAtlasCache)
        ensures
            c.resident is None,
            wf_cache(c),
    {
        SpriteAtlasCache { resident: None }
    }

    /// The requested identity is the resident one.
    pub open spec fn spec_hit(&self, identity: Seq<char>) -> bool {
        &&& self.resident is Some
        &&& self.resident->0.identity@ == identity
    }

    /// Returns the sheet for a source identity. If the identity matches
    /// the resident entry, the cached sheet is returned as it is, without
    /// touching the source bytes; otherwise the source is decoded —
    /// succeeding exactly when the bytes decode to an image that holds the
    /// grid — sliced, and installed as the new resident entry, evicting
    /// the previous one. A failed decode is fatal and leaves the cache
    /// unchanged.
    pub fn get_sheet(&mut self, identity: &String, bytes: &Vec<u8>) -> (r: Result<
        &SpriteSheet,
        ErrorKind,
    >)
        requires
            wf_cache(*old(self)),
        ensures
            wf_cache(*final(self)),
            old(self).spec_hit(identity@) ==> *final(self) == *old(self) && (r matches Ok(s)
                && *s == old(self).resident->0.sheet),
            !old(self).spec_hit(identity@) ==> (r is Ok <==> (spec_decoded_dims(
                bytes@,
            ) matches Some(d) && d.0 >= ATLAS_COLUMNS && d.1 >= ATLAS_ROWS)),
            !old(self).spec_hit(identity@) ==> match r {
                Ok(s) => {
                    &&& final(self).resident is Some
                    &&& final(self).resident->0.identity@ == identity@
                    &&& *s == final(self).resident->0.sheet
                    &&& wf_sheet(s)
                    &&& Some((s.width, s.height)) == spec_decoded_dims(bytes@)
                },
                Err(e) => e == ErrorKind::AssetLoad && *final(self) == *old(self),
            },
    {
        let hit = match &self.resident {
            Some(r) => *identity == r.identity,
            None => false,
        };
        if hit {
            return match &self.resident {
                Some(r) => Ok(&r.sheet),
                None => Err(ErrorKind::AssetLoad),
            };
        }
        match source(bytes) {
            Ok(sheet) => {
                self.resident = Some(ResidentSheet { identity: identity.clone(), sheet });
                match &self.resident {
                    Some(r) => Ok(&r.sheet),
                    None => Err(ErrorKind::AssetLoad),
                }
            },
            Err(e) => Err(e),
        }
    }
}

/// The animation and the draw orientation a state poses with: idle plays
/// the idle clips unmirrored, running right the running clips unmirrored,
/// and running left the same running clips mirrored.
pub open spec fn spec_pose(s: CharacterState) -> (AnimationName, ClipOrientation) {
    match s {
        CharacterState::Idle => (AnimationName::Idle, ClipOrientation::Original),
        CharacterState::RunningLeft => (AnimationName::Running, ClipOrientation::Flipped),
        CharacterState::RunningRight => (AnimationName::Running, ClipOrientation::Original),
    }
}

/// A clock within its invariant always points at a stored clip: the cycle
/// length re-derived from each state equals the number of clips stored for
/// that state's animation, so a lookup at the clock's frame cannot leave
/// the stored range.
pub proof fn lemma_clock_frame_in_range(sheet: &SpriteSheet, anim: Animate)
    requires
        wf_sheet(sheet),
        crate::clock::wf_animate(anim),
    ensures
        (anim.ticks as int) < sheet.spec_clips(spec_pose(anim.current).0).len(),
{
}

/// Picks the clip an animation component currently shows: the frame the
/// clock points at within the animation of the current state. A clock
/// within its invariant always points inside the stored range, so the
/// lookup cannot fail: the cycle lengths equal the stored clip counts.
pub fn select_clip<'a>(sheet: &'a SpriteSheet, anim: &Animate) -> (r: Result<
    (&'a Clip, ClipOrientation),
    ErrorKind,
>)
    requires
        wf_sheet(sheet),
        crate::clock::wf_animate(*anim),
    ensures
        r matches Ok(p) ==> p.1 == spec_pose(anim.current).1 && *p.0 == sheet.spec_clips(
            spec_pose(anim.current).0,
        )[anim.ticks as int] && p.0.has_flipped(),
        r is Ok,
{
    let (name, orientation) = match anim.state() {
        CharacterState::Idle => (AnimationName::Idle, ClipOrientation::Original),
        CharacterState::RunningLeft => (AnimationName::Running, ClipOrientation::Flipped),
        CharacterState::RunningRight => (AnimationName::Running, ClipOrientation::Original),
    };
    match sheet.clip_at(name, anim.ticks as usize) {
        Ok(clip) => Ok((clip, orientation)),
        Err(e) => Err(e),
    }
}

} // verus!
