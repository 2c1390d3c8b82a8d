//! Quarter-turn rotations and mirror flips of images, and the record of the
//! transforms applied so far.

use vstd::prelude::*;
use vstd::arithmetic::div_mod::{lemma_fundamental_div_mod, lemma_mod_pos_bound};

verus! {

/// A transform that can be applied to the loaded image and replayed later.
#[derive(Debug, Clone, Copy, PartialEq, Eq, Structural)]
pub enum ImageTransformOp {
    RotateCw,
    RotateCcw,
    FlipHorizontal,
    FlipVertical,
}

/// Accumulated rotation (in clockwise quarter turns) and reflection.
#[derive(Debug, Clone, Copy, PartialEq, Eq, Structural)]
pub struct ImageTransformRecord {
    pub rotation_quarters: u8,
    pub reflected: bool,
}

/// The record after applying `op` to `r`.
pub open spec fn apply_spec(r: ImageTransformRecord, op: ImageTransformOp) -> ImageTransformRecord {
    let q = r.rotation_quarters as int % 4;
    match op {
        ImageTransformOp::RotateCw => ImageTransformRecord {
            rotation_quarters: ((q + 1) % 4) as u8,
            reflected: r.reflected,
        },
        ImageTransformOp::RotateCcw => ImageTransformRecord {
            rotation_quarters: ((q + 3) % 4) as u8,
            reflected: r.reflected,
        },
        ImageTransformOp::FlipHorizontal => ImageTransformRecord {
            rotation_quarters: ((4 - q) % 4) as u8,
            reflected: !r.reflected,
        },
        ImageTransformOp::FlipVertical => ImageTransformRecord {
            rotation_quarters: ((2 + 4 - q) % 4) as u8,
            reflected: !r.reflected,
        },
    }
}

/// The record after applying each operation in turn.
pub open spec fn apply_all(r: ImageTransformRecord, ops: Seq<ImageTransformOp>) -> ImageTransformRecord
    decreases ops.len(),
{
    if ops.len() == 0 {
        r
    } else {
        apply_all(apply_spec(r, ops[0]), ops.drop_first())
    }
}

/// The flip that starts the replay of a reflected record.
pub open spec fn replay_prefix(r: ImageTransformRecord) -> Seq<ImageTransformOp> {
    if r.reflected {
        seq![ImageTransformOp::FlipHorizontal]
    } else {
        Seq::empty()
    }
}

/// `k` clockwise quarter turns.
pub open spec fn quarter_turns(k: nat) -> Seq<ImageTransformOp> {
    Seq::new(k, |i: int| ImageTransformOp::RotateCw)
}

/// The operations that `replay_operations` lists: one horizontal flip when
/// the record is reflected, then its clockwise quarter turns.
pub open spec fn replay_spec(r: ImageTransformRecord) -> Seq<ImageTransformOp> {
    replay_prefix(r) + quarter_turns((r.rotation_quarters as int % 4) as nat)
}

impl ImageTransformRecord {
    /// No rotation, no reflection.
    pub fn identity() -> (r: ImageTransformRecord)
        ensures
            r.rotation_quarters == 0 && !r.reflected,
    {
        ImageTransformRecord { rotation_quarters: 0, reflected: false }
    }

    /// Records one more transform.
    pub fn apply(&mut self, op: ImageTransformOp)
        ensures
            *final(self) == apply_spec(*old(self), op),
    {
        let q = self.rotation_quarters % 4;
        match op {
            ImageTransformOp::RotateCw => {
                self.rotation_quarters = (q + 1) % 4;
            },
            ImageTransformOp::RotateCcw => {
                self.rotation_quarters = (q + 3) % 4;
            },
            ImageTransformOp::FlipHorizontal => {
                self.rotation_quarters = (4 - q) % 4;
                self.reflected = !self.reflected;
            },
            ImageTransformOp::FlipVertical => {
                self.rotation_quarters = (2 + 4 - q) % 4;
                self.reflected = !self.reflected;
            },
        }
    }

    /// The operations to reapply to a freshly loaded image so that it ends in
    /// the orientation this record holds.
    pub fn replay_operations(self) -> (ops: Vec<ImageTransformOp>)
        ensures
            ops@ == replay_spec(self),
    {
        let mut ops: Vec<ImageTransformOp> = Vec::new();
        if self.reflected {
            ops.push(ImageTransformOp::FlipHorizontal);
        }
        assert(ops@ =~= replay_prefix(self) + quarter_turns(0));
        let n = self.rotation_quarters % 4;
        let mut i: u8 = 0;
        while i < n
            invariant
                n == self.rotation_quarters % 4,
                i <= n,
                ops@ == replay_prefix(self) + quarter_turns(i as nat),
            decreases n - i,
        {
            ops.push(ImageTransformOp::RotateCw);
            i = i + 1;
            assert(ops@ =~= replay_prefix(self) + quarter_turns(i as nat));
        }
        ops
    }
}

/// The record of an untransformed image.
pub open spec fn identity_record() -> ImageTransformRecord {
    ImageTransformRecord { rotation_quarters: 0, reflected: false }
}

/// The record with its rotation reduced to fewer than four quarter turns.
pub open spec fn normalized(r: ImageTransformRecord) -> ImageTransformRecord {
    ImageTransformRecord { rotation_quarters: (r.rotation_quarters as int % 4) as u8, reflected: r.reflected }
}

proof fn lemma_apply_all_two(r: ImageTransformRecord, a: ImageTransformOp, b: ImageTransformOp)
    ensures
        apply_all(r, seq![a, b]) == apply_spec(apply_spec(r, a), b),
{
    let r1 = apply_spec(r, a);
    assert(seq![a, b].drop_first() =~= seq![b]);
    assert(seq![b].drop_first() =~= Seq::<ImageTransformOp>::empty());
    assert(apply_all(r, seq![a, b]) == apply_all(r1, seq![b]));
    assert(apply_all(r1, seq![b]) == apply_all(apply_spec(r1, b), Seq::<ImageTransformOp>::empty()));
}

/// Every recorded rotation is below four quarter turns.
pub proof fn lemma_record_normalized(r: ImageTransformRecord, op: ImageTransformOp)
    ensures
        apply_spec(r, op).rotation_quarters < 4,
{
}

/// A quarter turn one way and then the other leaves the record as it was
/// (up to whole turns).
pub proof fn lemma_rotation_inverse(r: ImageTransformRecord)
    ensures
        apply_all(r, seq![ImageTransformOp::RotateCw, ImageTransformOp::RotateCcw]) == normalized(r),
        apply_all(r, seq![ImageTransformOp::RotateCcw, ImageTransformOp::RotateCw]) == normalized(r),
{
    lemma_apply_all_two(r, ImageTransformOp::RotateCw, ImageTransformOp::RotateCcw);
    lemma_apply_all_two(r, ImageTransformOp::RotateCcw, ImageTransformOp::RotateCw);
}

/// Two horizontal flips, or two vertical flips, leave the record as it was
/// (up to whole turns).
pub proof fn lemma_flip_involution(r: ImageTransformRecord)
    ensures
        apply_all(r, seq![ImageTransformOp::FlipHorizontal, ImageTransformOp::FlipHorizontal])
            == normalized(r),
        apply_all(r, seq![ImageTransformOp::FlipVertical, ImageTransformOp::FlipVertical])
            == normalized(r),
{
    lemma_apply_all_two(r, ImageTransformOp::FlipHorizontal, ImageTransformOp::FlipHorizontal);
    lemma_apply_all_two(r, ImageTransformOp::FlipVertical, ImageTransformOp::FlipVertical);
}

/// Four clockwise quarter turns make a whole turn.
pub proof fn lemma_four_quarter_turns(r: ImageTransformRecord)
    ensures
        apply_all(r, seq![ImageTransformOp::RotateCw, ImageTransformOp::RotateCw, ImageTransformOp::RotateCw, ImageTransformOp::RotateCw]) == normalized(r),
{
    let c = ImageTransformOp::RotateCw;
    let ops = seq![c, c, c, c];
    assert(ops.drop_first() =~= seq![c, c, c]);
    assert(seq![c, c, c].drop_first() =~= seq![c, c]);
    let r1 = apply_spec(r, c);
    let r2 = apply_spec(r1, c);
    assert(apply_all(r, ops) == apply_all(r1, seq![c, c, c]));
    assert(apply_all(r1, seq![c, c, c]) == apply_all(r2, seq![c, c]));
    lemma_apply_all_two(r2, c, c);
}

/// A vertical flip is a horizontal flip followed by a half turn, for every
/// record.
pub proof fn lemma_vertical_flip_is_horizontal_flip_and_half_turn(r: ImageTransformRecord)
    ensures
        apply_spec(r, ImageTransformOp::FlipVertical) == apply_all(
            r,
            seq![ImageTransformOp::FlipHorizontal, ImageTransformOp::RotateCw, ImageTransformOp::RotateCw],
        ),
{
    let h = ImageTransformOp::FlipHorizontal;
    let c = ImageTransformOp::RotateCw;
    let ops = seq![h, c, c];
    assert(ops.drop_first() =~= seq![c, c]);
    let r1 = apply_spec(r, h);
    assert(apply_all(r, ops) == apply_all(r1, seq![c, c]));
    lemma_apply_all_two(r1, c, c);
}

/// Mirroring and turning do not commute: a horizontal flip followed by a
/// clockwise quarter turn equals a counter-clockwise quarter turn followed by
/// the flip, for every record.
pub proof fn lemma_flip_reverses_turns(r: ImageTransformRecord)
    ensures
        apply_all(r, seq![ImageTransformOp::FlipHorizontal, ImageTransformOp::RotateCw]) == apply_all(
            r,
            seq![ImageTransformOp::RotateCcw, ImageTransformOp::FlipHorizontal],
        ),
{
    lemma_apply_all_two(r, ImageTransformOp::FlipHorizontal, ImageTransformOp::RotateCw);
    lemma_apply_all_two(r, ImageTransformOp::RotateCcw, ImageTransformOp::FlipHorizontal);
}

proof fn lemma_apply_all_append(r: ImageTransformRecord, a: Seq<ImageTransformOp>, b: Seq<ImageTransformOp>)
    ensures
        apply_all(r, a + b) == apply_all(apply_all(r, a), b),
    decreases a.len(),
{
    if a.len() > 0 {
        assert((a + b).drop_first() =~= a.drop_first() + b);
        lemma_apply_all_append(apply_spec(r, a[0]), a.drop_first(), b);
    } else {
        assert(a + b =~= b);
    }
}

proof fn lemma_apply_turns(k: nat, reflected: bool)
    requires
        k < 4,
    ensures
        apply_all(
            ImageTransformRecord { rotation_quarters: 0, reflected },
            quarter_turns(k),
        ) == (ImageTransformRecord { rotation_quarters: k as u8, reflected }),
    decreases k,
{
    let start = ImageTransformRecord { rotation_quarters: 0, reflected };
    if k > 0 {
        let turns = quarter_turns(k);
        let fewer = quarter_turns((k - 1) as nat);
        assert(turns =~= fewer + seq![ImageTransformOp::RotateCw]);
        lemma_apply_turns((k - 1) as nat, reflected);
        lemma_apply_all_append(start, fewer, seq![ImageTransformOp::RotateCw]);
        let mid = apply_all(start, fewer);
        assert(seq![ImageTransformOp::RotateCw].drop_first() =~= Seq::<ImageTransformOp>::empty());
        assert(apply_all(mid, seq![ImageTransformOp::RotateCw]) == apply_all(
            apply_spec(mid, ImageTransformOp::RotateCw),
            Seq::<ImageTransformOp>::empty(),
        ));
    } else {
        assert(quarter_turns(0) =~= Seq::<ImageTransformOp>::empty());
    }
}

/// Replaying the listed operations on an untransformed image gives back the
/// record (with its rotation below four quarter turns).
pub proof fn lemma_replay_reproduces(r: ImageTransformRecord)
    ensures
        apply_all(identity_record(), replay_spec(r)) == normalized(r),
{
    let k = (r.rotation_quarters as int % 4) as nat;
    let prefix = replay_prefix(r);
    lemma_apply_all_append(identity_record(), prefix, quarter_turns(k));
    let start = ImageTransformRecord { rotation_quarters: 0, reflected: r.reflected };
    if r.reflected {
        assert(prefix.drop_first() =~= Seq::<ImageTransformOp>::empty());
        assert(apply_all(identity_record(), prefix) == apply_all(
            apply_spec(identity_record(), ImageTransformOp::FlipHorizontal),
            Seq::<ImageTransformOp>::empty(),
        ));
    }
    assert(apply_all(identity_record(), prefix) == start);
    lemma_apply_turns(k, r.reflected);
}

// ---------------------------------------------------------------------------
// Pixel transforms.

/// An image as rows of packed pixels, `size` being `[width, height]`.
#[derive(Debug, Clone, PartialEq, Eq)]
pub struct PixelImage {
    pub size: [usize; 2],
    pub pixels: Vec<u32>,
}

/// One pixel per position.
pub open spec fn image_wf(img: PixelImage) -> bool {
    img.pixels@.len() == img.size[0] as int * img.size[1] as int
}

/// The pixel in column `x` and row `y` of rows `width` pixels long.
pub open spec fn pixel_at(s: Seq<u32>, width: int, x: int, y: int) -> u32 {
    s[y * width + x]
}

/// `new` is `old` (`w` x `h`) turned a quarter clockwise: `h` x `w`.
pub open spec fn rotated_cw(old: Seq<u32>, w: int, h: int, new: Seq<u32>) -> bool {
    &&& new.len() == w * h
    &&& forall|x: int, y: int|
        0 <= x < h && 0 <= y < w ==> #[trigger] pixel_at(new, h, x, y) == pixel_at(old, w, y, h - 1 - x)
}

/// `new` is `old` (`w` x `h`) turned a quarter counter-clockwise: `h` x `w`.
pub open spec fn rotated_ccw(old: Seq<u32>, w: int, h: int, new: Seq<u32>) -> bool {
    &&& new.len() == w * h
    &&& forall|x: int, y: int|
        0 <= x < h && 0 <= y < w ==> #[trigger] pixel_at(new, h, x, y) == pixel_at(old, w, w - 1 - y, x)
}

/// `new` is `old` (`w` x `h`) mirrored left to right.
pub open spec fn flipped_h(old: Seq<u32>, w: int, h: int, new: Seq<u32>) -> bool {
    &&& new.len() == w * h
    &&& forall|x: int, y: int|
        0 <= x < w && 0 <= y < h ==> #[trigger] pixel_at(new, w, x, y) == pixel_at(old, w, w - 1 - x, y)
}

/// `new` is `old` (`w` x `h`) mirrored top to bottom.
pub open spec fn flipped_v(old: Seq<u32>, w: int, h: int, new: Seq<u32>) -> bool {
    &&& new.len() == w * h
    &&& forall|x: int, y: int|
        0 <= x < w && 0 <= y < h ==> #[trigger] pixel_at(new, w, x, y) == pixel_at(old, w, x, h - 1 - y)
}

proof fn lemma_index_bounds(x: int, y: int, w: int, h: int)
    requires
        0 <= x < w,
        0 <= y < h,
    ensures
        0 <= y * w + x < w * h,
        y * w + x < (y + 1) * w,
        (y + 1) * w <= w * h,
        y * w >= 0,
{
    assert(0 <= y * w) by (nonlinear_arith)
        requires
            0 <= y,
            0 <= w,
    ;
    assert((y + 1) * w == y * w + w) by (nonlinear_arith);
    assert((y + 1) * w <= h * w) by (nonlinear_arith)
        requires
            y + 1 <= h,
            0 <= w,
    ;
    assert(h * w == w * h) by (nonlinear_arith);
}

proof fn lemma_row_order(x1: int, y1: int, x2: int, y2: int, w: int)
    requires
        0 <= x1 < w,
        0 <= x2 < w,
        0 <= y1,
        0 <= y2,
        y1 < y2 || (y1 == y2 && x1 < x2),
    ensures
        y1 * w + x1 < y2 * w + x2,
{
    if y1 < y2 {
        assert(y1 * w + w <= y2 * w) by (nonlinear_arith)
            requires
                y1 + 1 <= y2,
                0 <= w,
        ;
    }
}

proof fn lemma_decompose(i: int, w: int, h: int)
    requires
        0 <= i < w * h,
        w > 0,
    ensures
        0 <= i % w < w,
        0 <= i / w < h,
        i == (i / w) * w + i % w,
{
    lemma_fundamental_div_mod(i, w);
    lemma_mod_pos_bound(i, w);
    assert(w * (i / w) == (i / w) * w) by (nonlinear_arith);
    assert(0 <= i / w) by (nonlinear_arith)
        requires
            i == w * (i / w) + i % w,
            0 <= i % w < w,
            0 <= i,
            w > 0,
    ;
    assert(i / w < h) by (nonlinear_arith)
        requires
            i == w * (i / w) + i % w,
            0 <= i % w,
            i < w * h,
            w > 0,
    ;
}

/// The pixels of `old` (`w` x `h`) turned a quarter turn, clockwise or not.
fn rotate_into(old: &Vec<u32>, w: usize, h: usize, clockwise: bool) -> (new: Vec<u32>)
    requires
        old@.len() == w * h,
        w > 0,
        h > 0,
    ensures
        clockwise ==> rotated_cw(old@, w as int, h as int, new@),
        !clockwise ==> rotated_ccw(old@, w as int, h as int, new@),
{
    let n = old.len();
    assert(w * h <= usize::MAX);
    let mut out: Vec<u32> = Vec::new();
    let mut dy: usize = 0;
    while dy < w
        invariant
            old@.len() == w * h,
            w * h <= usize::MAX,
            w > 0,
            h > 0,
            dy <= w,
            out@.len() == dy * h,
            forall|x: int, y: int|
                0 <= x < h && 0 <= y < dy ==> #[trigger] pixel_at(out@, h as int, x, y) == if clockwise {
                    pixel_at(old@, w as int, y, h - 1 - x)
                } else {
                    pixel_at(old@, w as int, w - 1 - y, x)
                },
        decreases w - dy,
    {
        let mut dx: usize = 0;
        proof {
            lemma_index_bounds(0, dy as int, h as int, w as int);
        }
        while dx < h
            invariant
                old@.len() == w * h,
                w * h <= usize::MAX,
                w > 0,
                h > 0,
                dy < w,
                dx <= h,
                out@.len() == dy * h + dx,
                forall|x: int, y: int|
                    (0 <= x < h && 0 <= y < dy) || (0 <= x < dx && y == dy) ==> #[trigger] pixel_at(
                        out@,
                        h as int,
                        x,
                        y,
                    ) == if clockwise {
                        pixel_at(old@, w as int, y, h - 1 - x)
                    } else {
                        pixel_at(old@, w as int, w - 1 - y, x)
                    },
            decreases h - dx,
        {
            let (sx, sy) = if clockwise { (dy, h - 1 - dx) } else { (w - 1 - dy, dx) };
            proof {
                lemma_index_bounds(sx as int, sy as int, w as int, h as int);
                lemma_index_bounds(dx as int, dy as int, h as int, w as int);
            }
            let v = old[sy * w + sx];
            let ghost before = out@;
            out.push(v);
            proof {
                assert forall|x: int, y: int|
                    (0 <= x < h && 0 <= y < dy) || (0 <= x < dx + 1 && y == dy) implies #[trigger] pixel_at(
                        out@,
                        h as int,
                        x,
                        y,
                    ) == if clockwise {
                        pixel_at(old@, w as int, y, h - 1 - x)
                    } else {
                        pixel_at(old@, w as int, w - 1 - y, x)
                    } by {
                    if x == dx && y == dy {
                        assert(pixel_at(out@, h as int, x, y) == v);
                    } else {
                        lemma_row_order(x, y, dx as int, dy as int, h as int);
                        lemma_index_bounds(x, y, h as int, w as int);
                        assert(pixel_at(out@, h as int, x, y) == pixel_at(before, h as int, x, y));
                    }
                }
            }
            dx = dx + 1;
        }
        dy = dy + 1;
        assert(out@.len() == dy * h) by (nonlinear_arith)
            requires
                out@.len() == (dy - 1) * h + h,
        ;
    }
    assert(w * h == h * w) by (nonlinear_arith);
    out
}

/// Turns the image a quarter clockwise; an empty image is left as it is.
pub fn rotate_color_image_cw(image: &mut PixelImage)
    requires
        image_wf(*old(image)),
    ensures
        image_wf(*final(image)),
        old(image).size[0] == 0 || old(image).size[1] == 0 ==> final(image).size == old(image).size
            && final(image).pixels@ == old(image).pixels@,
        old(image).size[0] > 0 && old(image).size[1] > 0 ==> final(image).size[0] == old(image).size[1]
            && final(image).size[1] == old(image).size[0] && rotated_cw(
            old(image).pixels@,
            old(image).size[0] as int,
            old(image).size[1] as int,
            final(image).pixels@,
        ),
{
    let width = image.size[0];
    let height = image.size[1];
    if width == 0 || height == 0 {
        return;
    }
    let rotated = rotate_into(&image.pixels, width, height, true);
    assert(width * height == height * width) by (nonlinear_arith);
    *image = PixelImage { size: [height, width], pixels: rotated };
}

/// Turns the image a quarter counter-clockwise; an empty image is left as it is.
pub fn rotate_color_image_ccw(image: &mut PixelImage)
    requires
        image_wf(*old(image)),
    ensures
        image_wf(*final(image)),
        old(image).size[0] == 0 || old(image).size[1] == 0 ==> final(image).size == old(image).size
            && final(image).pixels@ == old(image).pixels@,
        old(image).size[0] > 0 && old(image).size[1] > 0 ==> final(image).size[0] == old(image).size[1]
            && final(image).size[1] == old(image).size[0] && rotated_ccw(
            old(image).pixels@,
            old(image).size[0] as int,
            old(image).size[1] as int,
            final(image).pixels@,
        ),
{
    let width = image.size[0];
    let height = image.size[1];
    if width == 0 || height == 0 {
        return;
    }
    let rotated = rotate_into(&image.pixels, width, height, false);
    assert(width * height == height * width) by (nonlinear_arith);
    *image = PixelImage { size: [height, width], pixels: rotated };
}

proof fn lemma_index_injective(x1: int, y1: int, x2: int, y2: int, w: int)
    requires
        0 <= x1 < w,
        0 <= x2 < w,
        0 <= y1,
        0 <= y2,
        x1 != x2 || y1 != y2,
    ensures
        y1 * w + x1 != y2 * w + x2,
{
    if y1 < y2 || (y1 == y2 && x1 < x2) {
        lemma_row_order(x1, y1, x2, y2, w);
    } else {
        lemma_row_order(x2, y2, x1, y1, w);
    }
}

/// Exchanges two entries of a vector in place.
fn swap_entries(v: &mut Vec<u32>, i: usize, j: usize)
    requires
        i < old(v)@.len(),
        j < old(v)@.len(),
    ensures
        final(v)@ == old(v)@.update(i as int, old(v)@[j as int]).update(j as int, old(v)@[i as int]),
{
    let a = v[i];
    let b = v[j];
    v.set(i, b);
    v.set(j, a);
}

/// What exchanging the pixels at `(x1, y1)` and `(x2, y2)` does.
proof fn lemma_swap_pixels(s: Seq<u32>, t: Seq<u32>, w: int, h: int, x1: int, y1: int, x2: int, y2: int)
    requires
        s.len() == w * h,
        0 <= x1 < w,
        0 <= x2 < w,
        0 <= y1 < h,
        0 <= y2 < h,
        t == s.update(y1 * w + x1, s[y2 * w + x2]).update(y2 * w + x2, s[y1 * w + x1]),
    ensures
        t.len() == s.len(),
        pixel_at(t, w, x1, y1) == pixel_at(s, w, x2, y2),
        pixel_at(t, w, x2, y2) == pixel_at(s, w, x1, y1),
        forall|px: int, py: int|
            0 <= px < w && 0 <= py < h && (px != x1 || py != y1) && (px != x2 || py != y2) ==> #[trigger] pixel_at(
                t,
                w,
                px,
                py,
            ) == pixel_at(s, w, px, py),
{
    lemma_index_bounds(x1, y1, w, h);
    lemma_index_bounds(x2, y2, w, h);
    if x1 != x2 || y1 != y2 {
        lemma_index_injective(x1, y1, x2, y2, w);
    }
    assert forall|px: int, py: int|
        0 <= px < w && 0 <= py < h && (px != x1 || py != y1) && (px != x2 || py != y2) implies #[trigger] pixel_at(
            t,
            w,
            px,
            py,
        ) == pixel_at(s, w, px, py) by {
        lemma_index_bounds(px, py, w, h);
        lemma_index_injective(px, py, x1, y1, w);
        lemma_index_injective(px, py, x2, y2, w);
    }
}

/// Mirrors the image left to right in place; an empty image is left as it is.
pub fn flip_color_image_horizontal(image: &mut PixelImage)
    requires
        image_wf(*old(image)),
    ensures
        image_wf(*final(image)),
        final(image).size == old(image).size,
        old(image).size[0] == 0 || old(image).size[1] == 0 ==> final(image).pixels@ == old(image).pixels@,
        old(image).size[0] > 0 && old(image).size[1] > 0 ==> flipped_h(
            old(image).pixels@,
            old(image).size[0] as int,
            old(image).size[1] as int,
            final(image).pixels@,
        ),
{
    let w = image.size[0];
    let h = image.size[1];
    if w == 0 || h == 0 {
        return;
    }
    let ghost src = image.pixels@;
    assert(image.pixels@.len() <= usize::MAX) by {
        let n = image.pixels.len();
    }
    let mut y: usize = 0;
    while y < h
        invariant
            image.size == old(image).size,
            w == image.size[0],
            h == image.size[1],
            src == old(image).pixels@,
            src.len() == w * h,
            image.pixels@.len() == w * h,
            w * h <= usize::MAX,
            w > 0,
            h > 0,
            y <= h,
            forall|px: int, py: int|
                0 <= px < w && 0 <= py < y ==> #[trigger] pixel_at(image.pixels@, w as int, px, py) == pixel_at(
                    src,
                    w as int,
                    w - 1 - px,
                    py,
                ),
            forall|px: int, py: int|
                0 <= px < w && y <= py < h ==> #[trigger] pixel_at(image.pixels@, w as int, px, py) == pixel_at(
                    src,
                    w as int,
                    px,
                    py,
                ),
        decreases h - y,
    {
        let mut x: usize = 0;
        while x + x + 1 < w
            invariant
                image.size == old(image).size,
                w == image.size[0],
                h == image.size[1],
                src.len() == w * h,
                image.pixels@.len() == w * h,
            w * h <= usize::MAX,
                w > 0,
                h > 0,
                y < h,
                x + x <= w,
                forall|px: int, py: int|
                    0 <= px < w && 0 <= py < y ==> #[trigger] pixel_at(image.pixels@, w as int, px, py)
                        == pixel_at(src, w as int, w - 1 - px, py),
                forall|px: int, py: int|
                    0 <= px < w && y < py < h ==> #[trigger] pixel_at(image.pixels@, w as int, px, py)
                        == pixel_at(src, w as int, px, py),
                forall|px: int|
                    0 <= px < x ==> #[trigger] pixel_at(image.pixels@, w as int, px, y as int) == pixel_at(
                        src,
                        w as int,
                        w - 1 - px,
                        y as int,
                    ) && pixel_at(image.pixels@, w as int, w - 1 - px, y as int) == pixel_at(
                        src,
                        w as int,
                        px,
                        y as int,
                    ),
                forall|px: int|
                    x <= px < w - x ==> #[trigger] pixel_at(image.pixels@, w as int, px, y as int) == pixel_at(
                        src,
                        w as int,
                        px,
                        y as int,
                    ),
            decreases w - x,
        {
            proof {
                lemma_index_bounds(x as int, y as int, w as int, h as int);
                lemma_index_bounds((w - 1 - x) as int, y as int, w as int, h as int);
            }
            let a = y * w + x;
            let b = y * w + (w - 1 - x);
            let ghost before = image.pixels@;
            swap_entries(&mut image.pixels, a, b);
            proof {
                lemma_swap_pixels(before, image.pixels@, w as int, h as int, x as int, y as int, (w - 1 - x) as int, y as int);
                assert(pixel_at(before, w as int, x as int, y as int) == pixel_at(src, w as int, x as int, y as int));
                assert(pixel_at(before, w as int, (w - 1 - x) as int, y as int) == pixel_at(src, w as int, (w - 1 - x) as int, y as int));
            }
            x = x + 1;
        }
        proof {
            assert forall|px: int| 0 <= px < w implies #[trigger] pixel_at(image.pixels@, w as int, px, y as int)
                == pixel_at(src, w as int, w - 1 - px, y as int) by {
                if px < x {
                } else if px >= w - x {
                    let q = w - 1 - px;
                    assert(pixel_at(image.pixels@, w as int, q, y as int) == pixel_at(src, w as int, w - 1 - q, y as int));
                } else {
                    assert(px == w - 1 - px);
                }
            }
        }
        y = y + 1;
    }
}

/// Mirrors the image top to bottom in place; an empty image is left as it is.
pub fn flip_color_image_vertical(image: &mut PixelImage)
    requires
        image_wf(*old(image)),
    ensures
        image_wf(*final(image)),
        final(image).size == old(image).size,
        old(image).size[0] == 0 || old(image).size[1] == 0 ==> final(image).pixels@ == old(image).pixels@,
        old(image).size[0] > 0 && old(image).size[1] > 0 ==> flipped_v(
            old(image).pixels@,
            old(image).size[0] as int,
            old(image).size[1] as int,
            final(image).pixels@,
        ),
{
    let w = image.size[0];
    let h = image.size[1];
    if w == 0 || h == 0 {
        return;
    }
    let ghost src = image.pixels@;
    assert(image.pixels@.len() <= usize::MAX) by {
        let n = image.pixels.len();
    }
    let mut y: usize = 0;
    while y + y + 1 < h
        invariant
            image.size == old(image).size,
            w == image.size[0],
            h == image.size[1],
            src == old(image).pixels@,
            src.len() == w * h,
            image.pixels@.len() == w * h,
            w * h <= usize::MAX,
            w > 0,
            h > 0,
            y + y <= h,
            forall|px: int, py: int|
                0 <= px < w && (0 <= py < y || h - y <= py < h) ==> #[trigger] pixel_at(
                    image.pixels@,
                    w as int,
                    px,
                    py,
                ) == pixel_at(src, w as int, px, h - 1 - py),
            forall|px: int, py: int|
                0 <= px < w && y <= py < h - y ==> #[trigger] pixel_at(image.pixels@, w as int, px, py)
                    == pixel_at(src, w as int, px, py),
        decreases h - y,
    {
        let mut x: usize = 0;
        while x < w
            invariant
                image.size == old(image).size,
                w == image.size[0],
                h == image.size[1],
                src.len() == w * h,
                image.pixels@.len() == w * h,
            w * h <= usize::MAX,
                w > 0,
                h > 0,
                y + y + 1 < h,
                x <= w,
                forall|px: int, py: int|
                    0 <= px < w && (0 <= py < y || h - y <= py < h) ==> #[trigger] pixel_at(
                        image.pixels@,
                        w as int,
                        px,
                        py,
                    ) == pixel_at(src, w as int, px, h - 1 - py),
                forall|px: int, py: int|
                    0 <= px < w && y < py < h - 1 - y ==> #[trigger] pixel_at(image.pixels@, w as int, px, py)
                        == pixel_at(src, w as int, px, py),
                forall|px: int|
                    0 <= px < x ==> #[trigger] pixel_at(image.pixels@, w as int, px, y as int) == pixel_at(
                        src,
                        w as int,
                        px,
                        h - 1 - y,
                    ) && pixel_at(image.pixels@, w as int, px, h - 1 - y) == pixel_at(
                        src,
                        w as int,
                        px,
                        y as int,
                    ),
                forall|px: int|
                    x <= px < w ==> #[trigger] pixel_at(image.pixels@, w as int, px, y as int) == pixel_at(
                        src,
                        w as int,
                        px,
                        y as int,
                    ) && pixel_at(image.pixels@, w as int, px, h - 1 - y) == pixel_at(
                        src,
                        w as int,
                        px,
                        h - 1 - y,
                    ),
            decreases w - x,
        {
            proof {
                lemma_index_bounds(x as int, y as int, w as int, h as int);
                lemma_index_bounds(x as int, (h - 1 - y) as int, w as int, h as int);
            }
            let a = y * w + x;
            let b = (h - 1 - y) * w + x;
            let ghost before = image.pixels@;
            swap_entries(&mut image.pixels, a, b);
            proof {
                lemma_swap_pixels(before, image.pixels@, w as int, h as int, x as int, y as int, x as int, (h - 1 - y) as int);
            }
            x = x + 1;
        }
        proof {
            assert forall|px: int, py: int|
                0 <= px < w && (0 <= py < y + 1 || h - (y + 1) <= py < h) implies #[trigger] pixel_at(
                    image.pixels@,
                    w as int,
                    px,
                    py,
                ) == pixel_at(src, w as int, px, h - 1 - py) by {
                if py == h - 1 - y {
                    assert(pixel_at(image.pixels@, w as int, px, y as int) == pixel_at(src, w as int, px, h - 1 - y));
                }
            }
        }
        y = y + 1;
    }
}

/// Turning a quarter clockwise and then a quarter counter-clockwise (or the
/// other way round) gives back the original pixels.
pub proof fn lemma_rotations_cancel(a: Seq<u32>, w: int, h: int, b: Seq<u32>, c: Seq<u32>)
    requires
        w > 0,
        h > 0,
        a.len() == w * h,
        (rotated_cw(a, w, h, b) && rotated_ccw(b, h, w, c)) || (rotated_ccw(a, w, h, b) && rotated_cw(
            b,
            h,
            w,
            c,
        )),
    ensures
        c == a,
{
    assert(c.len() == a.len()) by {
        assert(h * w == w * h) by (nonlinear_arith);
    }
    assert forall|i: int| 0 <= i < a.len() implies c[i] == a[i] by {
        lemma_decompose(i, w, h);
        let x = i % w;
        let y = i / w;
        assert(pixel_at(c, w, x, y) == c[i]);
        assert(pixel_at(a, w, x, y) == a[i]);
        if rotated_cw(a, w, h, b) && rotated_ccw(b, h, w, c) {
            assert(pixel_at(c, w, x, y) == pixel_at(b, h, h - 1 - y, x));
            assert(pixel_at(b, h, h - 1 - y, x) == pixel_at(a, w, x, y));
        } else {
            assert(pixel_at(c, w, x, y) == pixel_at(b, h, y, w - 1 - x));
            assert(pixel_at(b, h, y, w - 1 - x) == pixel_at(a, w, x, y));
        }
    }
    assert(c =~= a);
}

/// Mirroring twice the same way gives back the original pixels.
pub proof fn lemma_flips_cancel(a: Seq<u32>, w: int, h: int, b: Seq<u32>, c: Seq<u32>)
    requires
        w > 0,
        h > 0,
        a.len() == w * h,
        (flipped_h(a, w, h, b) && flipped_h(b, w, h, c)) || (flipped_v(a, w, h, b) && flipped_v(b, w, h, c)),
    ensures
        c == a,
{
    assert forall|i: int| 0 <= i < a.len() implies c[i] == a[i] by {
        lemma_decompose(i, w, h);
        let x = i % w;
        let y = i / w;
        assert(pixel_at(c, w, x, y) == c[i]);
        assert(pixel_at(a, w, x, y) == a[i]);
        if flipped_h(a, w, h, b) && flipped_h(b, w, h, c) {
            assert(pixel_at(c, w, x, y) == pixel_at(b, w, w - 1 - x, y));
        } else {
            assert(pixel_at(c, w, x, y) == pixel_at(b, w, x, h - 1 - y));
        }
    }
    assert(c =~= a);
}

} // verus!
