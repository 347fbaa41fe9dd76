//! The tray menu's entries and the tray icon's pixels.
use crate::text::same_text;
use vstd::prelude::*;

verus! {

/// What a tray menu entry asks for.
#[derive(Clone, Copy, PartialEq, Eq, Structural, Debug)]
pub enum TrayAction {
    NewNote,
    Search,
    Quit,
}

/// The menu id of the entry for `action`.
pub open spec fn menu_id_of(action: TrayAction) -> Seq<char> {
    match action {
        TrayAction::NewNote => "new-note"@,
        TrayAction::Search => "search"@,
        TrayAction::Quit => "quit"@,
    }
}

/// The menu id under which the entry for `action` is created.
pub fn menu_id(action: TrayAction) -> (id: &'static str)
    ensures
        id@ == menu_id_of(action),
{
    match action {
        TrayAction::NewNote => "new-note",
        TrayAction::Search => "search",
        TrayAction::Quit => "quit",
    }
}

/// The action of the menu entry with this id, if it is one of ours.
pub fn tray_action_for(id: &str) -> (action: Option<TrayAction>)
    ensures
        match action {
            Some(a) => id@ == menu_id_of(a),
            None => forall|a: TrayAction| id@ != menu_id_of(a),
        },
{
    if same_text(id, "new-note") {
        Some(TrayAction::NewNote)
    } else if same_text(id, "search") {
        Some(TrayAction::Search)
    } else if same_text(id, "quit") {
        Some(TrayAction::Quit)
    } else {
        proof {
            assert forall|a: TrayAction| id@ != menu_id_of(a) by {
                match a {
                    TrayAction::NewNote => {},
                    TrayAction::Search => {},
                    TrayAction::Quit => {},
                }
            }
        }
        None
    }
}

// ---------------------------------------------------------------------------
// The icon
// ---------------------------------------------------------------------------

/// Whether pixel (`x`, `y`) of the icon belongs to the "N" glyph.
pub open spec fn icon_glyph(x: int, y: int) -> bool {
    8 <= y < 24 && (9 <= x < 12 || 20 <= x < 23 || (12 <= x < 20 && -2 <= 2 * x - y - 16 <= 2))
}

/// Whether pixel (`x`, `y`) of the icon lies on its dark square.
pub open spec fn icon_background(x: int, y: int) -> bool {
    3 <= x < 29 && 3 <= y < 29
}

/// The RGBA colour of pixel (`x`, `y`): the glyph light, the square dark,
/// the rest transparent.
pub open spec fn icon_color(x: int, y: int) -> Seq<u8> {
    if icon_glyph(x, y) {
        seq![229u8, 234u8, 240u8, 255u8]
    } else if icon_background(x, y) {
        seq![35u8, 39u8, 46u8, 255u8]
    } else {
        seq![0u8, 0u8, 0u8, 0u8]
    }
}

/// Byte `i` of the icon's RGBA buffer, rows from the top, pixels from the
/// left, four bytes each.
pub open spec fn icon_byte(i: int) -> u8 {
    icon_color((i / 4) % 32, (i / 4) / 32)[i % 4]
}

proof fn lemma_pixel_bytes(p: int, k: int)
    by (nonlinear_arith)
    requires
        0 <= p,
        0 <= k < 4,
    ensures
        (4 * p + k) / 4 == p,
        (4 * p + k) % 4 == k,
{
}

proof fn lemma_icon_byte(p: int, k: int)
    requires
        0 <= p,
        0 <= k < 4,
    ensures
        icon_byte(4 * p + k) == icon_color(p % 32, p / 32)[k],
{
    lemma_pixel_bytes(p, k);
}

/// The colour of pixel `p`, counting row by row from the top left.
fn pixel_color(p: usize) -> (color: [u8; 4])
    requires
        p < 1024,
    ensures
        color@ == icon_color((p % 32) as int, (p / 32) as int),
{
    let x = p % 32;
    let y = p / 32;
    let background = 3 <= x && x < 29 && 3 <= y && y < 29;
    let glyph = 8 <= y && y < 24 && ((9 <= x && x < 12) || (20 <= x && x < 23) || (12 <= x && x
        < 20 && y + 14 <= 2 * x && 2 * x <= y + 18));
    assert(glyph == icon_glyph(x as int, y as int));
    assert(background == icon_background(x as int, y as int));
    if glyph {
        let c: [u8; 4] = [229, 234, 240, 255];
        assert(c@ =~= seq![229u8, 234u8, 240u8, 255u8]);
        c
    } else if background {
        let c: [u8; 4] = [35, 39, 46, 255];
        assert(c@ =~= seq![35u8, 39u8, 46u8, 255u8]);
        c
    } else {
        let c: [u8; 4] = [0, 0, 0, 0];
        assert(c@ =~= seq![0u8, 0u8, 0u8, 0u8]);
        c
    }
}

/// The 32 by 32 RGBA pixels of the tray icon.
pub fn notiz_icon_rgba() -> (pixels: Vec<u8>)
    ensures
        pixels.len() == 32 * 32 * 4,
        forall|i: int| 0 <= i < pixels.len() ==> pixels@[i] == icon_byte(i),
{
    let mut pixels: Vec<u8> = Vec::new();
    let mut p: usize = 0;
    while p < 1024
        invariant
            p <= 1024,
            pixels.len() == 4 * p,
            forall|i: int| 0 <= i < pixels.len() ==> pixels@[i] == icon_byte(i),
        decreases 1024 - p,
    {
        let color = pixel_color(p);
        let ghost before = pixels@;
        pixels.push(color[0]);
        pixels.push(color[1]);
        pixels.push(color[2]);
        pixels.push(color[3]);
        proof {
            assert forall|i: int| 0 <= i < pixels.len() implies pixels@[i] == icon_byte(i) by {
                if i >= 4 * p {
                    let k = i - 4 * p;
                    lemma_icon_byte(p as int, k);
                    assert(pixels@[i] == color@[k]);
                } else {
                    assert(pixels@[i] == before[i]);
                }
            }
        }
        p = p + 1;
    }
    pixels
}

} // verus!
