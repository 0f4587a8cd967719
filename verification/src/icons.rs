//! Weather icons (32 × 32), the degree sign, the settings gear and the wind
//! arrow, as shapes.
use vstd::prelude::*;
use vstd::string::StringSliceAdditionalSpecFns;
use vstd::utf8::is_char_boundary;

use crate::display::bit_mask;
use crate::scene::{line, Scene, Shape, ShapeModel};

verus! {

/// The picture drawn for a weather condition.
#[derive(Clone, Copy, Debug, PartialEq, Eq, Structural)]
pub enum IconKind {
    Sun,
    PartialCloud,
    Cloud,
    Overcast,
    Rain,
    Thunder,
    Snow,
    Mist,
}

/// The picture for an icon code, chosen by its first two characters
/// (`'0'` is byte 48): 01 sun, 02 sun behind cloud, 03 cloud, 04 two clouds,
/// 09 and 10 rain, 11 thunder, 13 snow, 50 mist; anything else, and a code
/// shorter than two bytes, a cloud.
pub open spec fn icon_kind_of(code: Seq<u8>) -> IconKind {
    if code.len() < 2 {
        IconKind::Cloud
    } else {
        let (a, b) = (code[0], code[1]);
        if a == 48 && b == 49 {
            IconKind::Sun
        } else if a == 48 && b == 50 {
            IconKind::PartialCloud
        } else if a == 48 && b == 51 {
            IconKind::Cloud
        } else if a == 48 && b == 52 {
            IconKind::Overcast
        } else if (a == 48 && b == 57) || (a == 49 && b == 48) {
            IconKind::Rain
        } else if a == 49 && b == 49 {
            IconKind::Thunder
        } else if a == 49 && b == 51 {
            IconKind::Snow
        } else if a == 53 && b == 48 {
            IconKind::Mist
        } else {
            IconKind::Cloud
        }
    }
}

/// The code can be cut after its first two bytes (needed only when it has
/// more than two).
pub open spec fn prefix_cuttable(code: &str) -> bool {
    code.spec_bytes().len() >= 2 ==> is_char_boundary(code.spec_bytes(), 2)
}

/// Chooses the picture for an icon code.
pub fn icon_kind(code: &str) -> (r: IconKind)
    requires
        prefix_cuttable(code),
    ensures
        r == icon_kind_of(code.spec_bytes()),
{
    let b = code.as_bytes();
    if b.len() < 2 {
        return IconKind::Cloud;
    }
    let (a, c) = (b[0], b[1]);
    if a == 48 && c == 49 {
        IconKind::Sun
    } else if a == 48 && c == 50 {
        IconKind::PartialCloud
    } else if a == 48 && c == 51 {
        IconKind::Cloud
    } else if a == 48 && c == 52 {
        IconKind::Overcast
    } else if (a == 48 && c == 57) || (a == 49 && c == 48) {
        IconKind::Rain
    } else if a == 49 && c == 49 {
        IconKind::Thunder
    } else if a == 49 && c == 51 {
        IconKind::Snow
    } else if a == 53 && c == 48 {
        IconKind::Mist
    } else {
        IconKind::Cloud
    }
}

// ───────────────────────── pictures ─────────────────────────

pub open spec fn disc(x: int, y: int, diameter: int) -> ShapeModel {
    ShapeModel::Disc { x, y, diameter }
}

pub open spec fn ring(x: int, y: int, diameter: int, stroke: int) -> ShapeModel {
    ShapeModel::Ring { x, y, diameter, stroke }
}

/// A sun: a disc with eight rays.
pub open spec fn sun_model(x: int, y: int) -> Seq<ShapeModel> {
    let cx = x + 16;
    let cy = y + 16;
    seq![
        disc(x + 8, y + 8, 16),
        line(cx, y, cx, y + 4, 2),
        line(cx, y + 28, cx, y + 32, 2),
        line(x, cy, x + 4, cy, 2),
        line(x + 28, cy, x + 32, cy, 2),
        line(x + 3, y + 3, x + 6, y + 6, 2),
        line(x + 26, y + 3, x + 23, y + 6, 2),
        line(x + 3, y + 29, x + 6, y + 26, 2),
        line(x + 26, y + 29, x + 23, y + 26, 2),
    ]
}

/// A filled cloud: three discs on a bar.
pub open spec fn cloud_shape_model(x: int, y: int) -> Seq<ShapeModel> {
    seq![
        disc(x + 4, y + 10, 14),
        disc(x + 10, y + 4, 16),
        disc(x + 18, y + 8, 14),
        ShapeModel::FilledRect { x: x + 4, y: y + 16, w: 24, h: 8 },
    ]
}

/// An outlined cloud: three rings on a line.
pub open spec fn cloud_outline_model(x: int, y: int) -> Seq<ShapeModel> {
    seq![
        ring(x + 4, y + 10, 14, 2),
        ring(x + 10, y + 4, 16, 2),
        ring(x + 18, y + 8, 14, 2),
        line(x + 5, y + 23, x + 27, y + 23, 2),
    ]
}

/// Two outlined clouds, the smaller one behind to the upper right.
pub open spec fn overcast_model(x: int, y: int) -> Seq<ShapeModel> {
    cloud_outline_model(x + 6, y - 2) + cloud_outline_model(x - 2, y + 6)
}

/// A small sun behind a filled cloud.
pub open spec fn partial_cloud_model(x: int, y: int) -> Seq<ShapeModel> {
    seq![disc(x + 16, y, 14)] + cloud_shape_model(x - 2, y + 4)
}

/// A filled cloud with three drops.
pub open spec fn rain_model(x: int, y: int) -> Seq<ShapeModel> {
    cloud_shape_model(x, y) + seq![
        line(x + 8, y + 26, x + 6, y + 31, 1),
        line(x + 15, y + 26, x + 13, y + 31, 1),
        line(x + 22, y + 26, x + 20, y + 31, 1),
    ]
}

/// A filled cloud with a lightning bolt.
pub open spec fn thunder_model(x: int, y: int) -> Seq<ShapeModel> {
    cloud_shape_model(x, y) + seq![
        line(x + 16, y + 24, x + 13, y + 28, 2),
        line(x + 13, y + 28, x + 17, y + 28, 2),
        line(x + 17, y + 28, x + 14, y + 32, 2),
    ]
}

/// A filled cloud with three flakes.
pub open spec fn snow_model(x: int, y: int) -> Seq<ShapeModel> {
    cloud_shape_model(x, y) + seq![disc(x + 7, y + 27, 3), disc(x + 14, y + 29, 3), disc(x + 21, y + 27, 3)]
}

/// Four staggered horizontal lines.
pub open spec fn mist_model(x: int, y: int) -> Seq<ShapeModel> {
    seq![
        line(x + 2, y + 8, x + 28, y + 8, 2),
        line(x + 4, y + 14, x + 30, y + 14, 2),
        line(x + 2, y + 20, x + 28, y + 20, 2),
        line(x + 4, y + 26, x + 30, y + 26, 2),
    ]
}

/// The picture of a weather condition with its box at (`x`, `y`).
pub open spec fn icon_model(kind: IconKind, x: int, y: int) -> Seq<ShapeModel> {
    match kind {
        IconKind::Sun => sun_model(x, y),
        IconKind::PartialCloud => partial_cloud_model(x, y),
        IconKind::Cloud => cloud_outline_model(x, y),
        IconKind::Overcast => overcast_model(x, y),
        IconKind::Rain => rain_model(x, y),
        IconKind::Thunder => thunder_model(x, y),
        IconKind::Snow => snow_model(x, y),
        IconKind::Mist => mist_model(x, y),
    }
}

/// The degree sign: a small circle 4 pixels across.
pub open spec fn degree_model(x: int, y: int) -> Seq<ShapeModel> {
    seq![ring(x, y, 4, 1)]
}

/// A right-pointing arrow: a shaft and two barbs.
pub open spec fn wind_arrow_model(x: int, y: int) -> Seq<ShapeModel> {
    seq![
        line(x, y + 4, x + 10, y + 4, 1),
        line(x + 7, y + 1, x + 10, y + 4, 1),
        line(x + 7, y + 7, x + 10, y + 4, 1),
    ]
}

/// The 16 × 16 gear bitmap, two bytes a row, most significant bit leftmost.
pub open spec fn gear_bitmap() -> Seq<u8> {
    seq![
        0x03u8, 0xC0, 0x03, 0xC0, 0x1F, 0xF8, 0x3F, 0xFC, 0x71, 0x8E, 0xE1, 0x87, 0xE1, 0x87,
        0xFF, 0xFF, 0xFF, 0xFF, 0xE1, 0x87, 0xE1, 0x87, 0x71, 0x8E, 0x3F, 0xFC, 0x1F, 0xF8,
        0x03, 0xC0, 0x03, 0xC0,
    ]
}

/// The dots of column `col` of row `row` in each half of the gear.
pub open spec fn gear_cell(x: int, y: int, row: int, col: int) -> Seq<ShapeModel> {
    let left = if gear_bitmap()[2 * row] & bit_mask(col) != 0 {
        seq![ShapeModel::Dot { x: x + col, y: y + row }]
    } else {
        Seq::empty()
    };
    let right = if gear_bitmap()[2 * row + 1] & bit_mask(col) != 0 {
        seq![ShapeModel::Dot { x: x + 8 + col, y: y + row }]
    } else {
        Seq::empty()
    };
    left + right
}

/// The dots of the first `n` cells of the gear, row by row.
pub open spec fn gear_dots(x: int, y: int, n: nat) -> Seq<ShapeModel>
    decreases n,
{
    if n == 0 {
        Seq::empty()
    } else {
        gear_dots(x, y, (n - 1) as nat) + gear_cell(x, y, (n - 1) / 8, (n - 1) % 8)
    }
}

/// The gear: one dot for each set bit of its bitmap.
pub open spec fn gear_model(x: int, y: int) -> Seq<ShapeModel> {
    gear_dots(x, y, 128)
}

/// Adding every offset in `lo..=hi` to `v` stays within `i32`.
pub open spec fn offsets_fit(v: i32, lo: int, hi: int) -> bool {
    i32::MIN <= v + lo && v + hi <= i32::MAX
}

/// The coordinates of a picture's box leave room for every point of it.
pub open spec fn icon_fits(kind: IconKind, x: i32, y: i32) -> bool {
    match kind {
        IconKind::Sun => offsets_fit(x, 0, 32) && offsets_fit(y, 0, 32),
        IconKind::PartialCloud => offsets_fit(x, -2, 16) && offsets_fit(y, 0, 20),
        IconKind::Cloud => offsets_fit(x, 0, 27) && offsets_fit(y, 0, 23),
        IconKind::Overcast => offsets_fit(x, -2, 33) && offsets_fit(y, -2, 29),
        IconKind::Rain => offsets_fit(x, 0, 22) && offsets_fit(y, 0, 31),
        IconKind::Thunder => offsets_fit(x, 0, 18) && offsets_fit(y, 0, 32),
        IconKind::Snow => offsets_fit(x, 0, 21) && offsets_fit(y, 0, 29),
        IconKind::Mist => offsets_fit(x, 0, 30) && offsets_fit(y, 0, 26),
    }
}

fn add_disc(scene: &mut Scene, x: i32, y: i32, diameter: u32)
    ensures
        final(scene)@ == old(scene)@.push(disc(x as int, y as int, diameter as int)),
        final(scene).inverted == old(scene).inverted,
{
    scene.add(Shape::Disc { x, y, diameter });
}

fn add_ring(scene: &mut Scene, x: i32, y: i32, diameter: u32, stroke: u32)
    ensures
        final(scene)@ == old(scene)@.push(ring(x as int, y as int, diameter as int, stroke as int)),
        final(scene).inverted == old(scene).inverted,
{
    scene.add(Shape::Ring { x, y, diameter, stroke });
}

fn draw_sun(scene: &mut Scene, x: i32, y: i32)
    requires
        offsets_fit(x, 0, 32),
        offsets_fit(y, 0, 32),
    ensures
        final(scene)@ == old(scene)@ + sun_model(x as int, y as int),
        final(scene).inverted == old(scene).inverted,
{
    let cx = x + 16;
    let cy = y + 16;
    add_disc(scene, x + 8, y + 8, 16);
    scene.line(cx, y, cx, y + 4, 2);
    scene.line(cx, y + 28, cx, y + 32, 2);
    scene.line(x, cy, x + 4, cy, 2);
    scene.line(x + 28, cy, x + 32, cy, 2);
    scene.line(x + 3, y + 3, x + 6, y + 6, 2);
    scene.line(x + 26, y + 3, x + 23, y + 6, 2);
    scene.line(x + 3, y + 29, x + 6, y + 26, 2);
    scene.line(x + 26, y + 29, x + 23, y + 26, 2);
    assert(scene@ =~= old(scene)@ + sun_model(x as int, y as int));
}

fn draw_cloud_shape(scene: &mut Scene, x: i32, y: i32)
    requires
        offsets_fit(x, 0, 18),
        offsets_fit(y, 0, 16),
    ensures
        final(scene)@ == old(scene)@ + cloud_shape_model(x as int, y as int),
        final(scene).inverted == old(scene).inverted,
{
    add_disc(scene, x + 4, y + 10, 14);
    add_disc(scene, x + 10, y + 4, 16);
    add_disc(scene, x + 18, y + 8, 14);
    scene.add(Shape::FilledRect { x: x + 4, y: y + 16, w: 24, h: 8 });
    assert(scene@ =~= old(scene)@ + cloud_shape_model(x as int, y as int));
}

fn draw_cloud_outline(scene: &mut Scene, x: i32, y: i32)
    requires
        offsets_fit(x, 0, 27),
        offsets_fit(y, 0, 23),
    ensures
        final(scene)@ == old(scene)@ + cloud_outline_model(x as int, y as int),
        final(scene).inverted == old(scene).inverted,
{
    add_ring(scene, x + 4, y + 10, 14, 2);
    add_ring(scene, x + 10, y + 4, 16, 2);
    add_ring(scene, x + 18, y + 8, 14, 2);
    scene.line(x + 5, y + 23, x + 27, y + 23, 2);
    assert(scene@ =~= old(scene)@ + cloud_outline_model(x as int, y as int));
}

fn draw_cloud(scene: &mut Scene, x: i32, y: i32)
    requires
        offsets_fit(x, 0, 27),
        offsets_fit(y, 0, 23),
    ensures
        final(scene)@ == old(scene)@ + cloud_outline_model(x as int, y as int),
        final(scene).inverted == old(scene).inverted,
{
    draw_cloud_outline(scene, x, y);
}

fn draw_overcast(scene: &mut Scene, x: i32, y: i32)
    requires
        offsets_fit(x, -2, 33),
        offsets_fit(y, -2, 29),
    ensures
        final(scene)@ == old(scene)@ + overcast_model(x as int, y as int),
        final(scene).inverted == old(scene).inverted,
{
    draw_cloud_outline(scene, x + 6, y - 2);
    draw_cloud_outline(scene, x - 2, y + 6);
    assert(scene@ =~= old(scene)@ + overcast_model(x as int, y as int));
}

fn draw_partial_cloud(scene: &mut Scene, x: i32, y: i32)
    requires
        offsets_fit(x, -2, 16),
        offsets_fit(y, 0, 20),
    ensures
        final(scene)@ == old(scene)@ + partial_cloud_model(x as int, y as int),
        final(scene).inverted == old(scene).inverted,
{
    add_disc(scene, x + 16, y, 14);
    draw_cloud_shape(scene, x - 2, y + 4);
    assert(scene@ =~= old(scene)@ + partial_cloud_model(x as int, y as int));
}

fn draw_rain(scene: &mut Scene, x: i32, y: i32)
    requires
        offsets_fit(x, 0, 22),
        offsets_fit(y, 0, 31),
    ensures
        final(scene)@ == old(scene)@ + rain_model(x as int, y as int),
        final(scene).inverted == old(scene).inverted,
{
    draw_cloud_shape(scene, x, y);
    scene.line(x + 8, y + 26, x + 6, y + 31, 1);
    scene.line(x + 15, y + 26, x + 13, y + 31, 1);
    scene.line(x + 22, y + 26, x + 20, y + 31, 1);
    assert(scene@ =~= old(scene)@ + rain_model(x as int, y as int));
}

fn draw_thunder(scene: &mut Scene, x: i32, y: i32)
    requires
        offsets_fit(x, 0, 18),
        offsets_fit(y, 0, 32),
    ensures
        final(scene)@ == old(scene)@ + thunder_model(x as int, y as int),
        final(scene).inverted == old(scene).inverted,
{
    draw_cloud_shape(scene, x, y);
    scene.line(x + 16, y + 24, x + 13, y + 28, 2);
    scene.line(x + 13, y + 28, x + 17, y + 28, 2);
    scene.line(x + 17, y + 28, x + 14, y + 32, 2);
    assert(scene@ =~= old(scene)@ + thunder_model(x as int, y as int));
}

fn draw_snow(scene: &mut Scene, x: i32, y: i32)
    requires
        offsets_fit(x, 0, 21),
        offsets_fit(y, 0, 29),
    ensures
        final(scene)@ == old(scene)@ + snow_model(x as int, y as int),
        final(scene).inverted == old(scene).inverted,
{
    draw_cloud_shape(scene, x, y);
    add_disc(scene, x + 7, y + 27, 3);
    add_disc(scene, x + 14, y + 29, 3);
    add_disc(scene, x + 21, y + 27, 3);
    assert(scene@ =~= old(scene)@ + snow_model(x as int, y as int));
}

fn draw_mist(scene: &mut Scene, x: i32, y: i32)
    requires
        offsets_fit(x, 0, 30),
        offsets_fit(y, 0, 26),
    ensures
        final(scene)@ == old(scene)@ + mist_model(x as int, y as int),
        final(scene).inverted == old(scene).inverted,
{
    scene.line(x + 2, y + 8, x + 28, y + 8, 2);
    scene.line(x + 4, y + 14, x + 30, y + 14, 2);
    scene.line(x + 2, y + 20, x + 28, y + 20, 2);
    scene.line(x + 4, y + 26, x + 30, y + 26, 2);
    assert(scene@ =~= old(scene)@ + mist_model(x as int, y as int));
}

/// Draws the picture for an icon code with its box at (`x`, `y`).
pub fn draw_weather_icon(scene: &mut Scene, x: i32, y: i32, code: &str)
    requires
        icon_fits(icon_kind_of(code.spec_bytes()), x, y),
        prefix_cuttable(code),
    ensures
        final(scene)@ == old(scene)@ + icon_model(icon_kind_of(code.spec_bytes()), x as int, y as int),
        final(scene).inverted == old(scene).inverted,
{
    match icon_kind(code) {
        IconKind::Sun => draw_sun(scene, x, y),
        IconKind::PartialCloud => draw_partial_cloud(scene, x, y),
        IconKind::Cloud => draw_cloud(scene, x, y),
        IconKind::Overcast => draw_overcast(scene, x, y),
        IconKind::Rain => draw_rain(scene, x, y),
        IconKind::Thunder => draw_thunder(scene, x, y),
        IconKind::Snow => draw_snow(scene, x, y),
        IconKind::Mist => draw_mist(scene, x, y),
    }
}

/// Draws the degree sign with its box at (`x`, `y`).
pub fn draw_degree_symbol(scene: &mut Scene, x: i32, y: i32)
    ensures
        final(scene)@ == old(scene)@ + degree_model(x as int, y as int),
        final(scene).inverted == old(scene).inverted,
{
    add_ring(scene, x, y, 4, 1);
    assert(scene@ =~= old(scene)@ + degree_model(x as int, y as int));
}

/// Draws the wind arrow with its box at (`x`, `y`).
pub fn draw_wind_arrow(scene: &mut Scene, x: i32, y: i32)
    requires
        offsets_fit(x, 0, 10),
        offsets_fit(y, 0, 7),
    ensures
        final(scene)@ == old(scene)@ + wind_arrow_model(x as int, y as int),
        final(scene).inverted == old(scene).inverted,
{
    scene.line(x, y + 4, x + 10, y + 4, 1);
    scene.line(x + 7, y + 1, x + 10, y + 4, 1);
    scene.line(x + 7, y + 7, x + 10, y + 4, 1);
    assert(scene@ =~= old(scene)@ + wind_arrow_model(x as int, y as int));
}

/// Draws the 16 × 16 settings gear with its top-left corner at (`x`, `y`).
pub fn draw_settings_icon(scene: &mut Scene, x: i32, y: i32)
    requires
        offsets_fit(x, 0, 15),
        offsets_fit(y, 0, 15),
    ensures
        final(scene)@ == old(scene)@ + gear_model(x as int, y as int),
        final(scene).inverted == old(scene).inverted,
{
    let gear: [u8; 32] = [
        0x03, 0xC0, 0x03, 0xC0, 0x1F, 0xF8, 0x3F, 0xFC, 0x71, 0x8E, 0xE1, 0x87, 0xE1, 0x87,
        0xFF, 0xFF, 0xFF, 0xFF, 0xE1, 0x87, 0xE1, 0x87, 0x71, 0x8E, 0x3F, 0xFC, 0x1F, 0xF8,
        0x03, 0xC0, 0x03, 0xC0,
    ];
    assert(gear@ =~= gear_bitmap());
    let ghost start = scene@;
    let ghost inv = scene.inverted;
    let mut row: u32 = 0;
    while row < 16
        invariant
            row <= 16,
            offsets_fit(x, 0, 15),
            offsets_fit(y, 0, 15),
            gear@ == gear_bitmap(),
            scene@ == start + gear_dots(x as int, y as int, (row * 8) as nat),
            scene.inverted == inv,
        decreases 16 - row,
    {
        let hi = gear[(row * 2) as usize];
        let lo = gear[(row * 2 + 1) as usize];
        let mut col: u32 = 0;
        while col < 8
            invariant
                row < 16,
                col <= 8,
                offsets_fit(x, 0, 15),
                offsets_fit(y, 0, 15),
                hi == gear_bitmap()[2 * row as int],
                lo == gear_bitmap()[2 * row as int + 1],
                scene@ == start + gear_dots(x as int, y as int, (row * 8 + col) as nat),
                scene.inverted == inv,
            decreases 8 - col,
        {
            let m: u8 = 0x80u8 >> (col as u8);
            assert(m == bit_mask(col as int));
            let ghost before = scene@;
            if hi & m != 0 {
                scene.add(Shape::Dot { x: x + col as i32, y: y + row as i32 });
            }
            let ghost mid = scene@;
            if lo & m != 0 {
                scene.add(Shape::Dot { x: x + 8 + col as i32, y: y + row as i32 });
            }
            proof {
                let n = (row * 8 + col) as nat;
                assert((n + 1 - 1) / 8 == row as int);
                assert((n + 1 - 1) % 8 == col as int);
                let cell = gear_cell(x as int, y as int, row as int, col as int);
                assert(scene@ =~= before + cell);
                assert(gear_dots(x as int, y as int, n + 1) == gear_dots(x as int, y as int, n)
                    + cell);
                assert(scene@ =~= start + gear_dots(x as int, y as int, (n + 1) as nat));
            }
            col = col + 1;
        }
        row = row + 1;
    }
}

/// The picture depends on the first two bytes of the code only, and a
/// code shorter than two bytes gets the cloud.
pub proof fn lemma_icon_by_prefix(a: Seq<u8>, b: Seq<u8>)
    ensures
        a.len() >= 2 ==> icon_kind_of(a) == icon_kind_of(a.subrange(0, 2)),
        a.len() >= 2 && b.len() >= 2 && a[0] == b[0] && a[1] == b[1] ==> icon_kind_of(a)
            == icon_kind_of(b),
        a.len() < 2 ==> icon_kind_of(a) == IconKind::Cloud,
{
}

} // verus!
