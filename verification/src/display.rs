//! Iconography and display-line composition: one formatted text row per
//! discovered player, combining a playback glyph, a loop glyph, the
//! normalized metadata and the player's identity.

use vstd::prelude::*;
use vstd::string::StringExecFns;

use crate::metadata::{normalize_metadata, normalized_artist, normalized_title, PropertyBag};
use crate::player::{LoopMode, PlaybackState};

verus! {

/// Everything the menu shows about one player, read from the control bus:
/// its playback state, its loop mode (absent when the player does not expose
/// loop control or the read failed), its property bag (absent when the bag
/// could not be read), and its identity text.
#[derive(Debug)]
pub struct PlayerSnapshot {
    pub playback: PlaybackState,
    pub loop_info: Option<LoopMode>,
    pub bag: Option<PropertyBag>,
    pub identity: String,
}

/// The glyph shown for each playback state. The mapping is total: every
/// state has exactly one glyph, with no fallback branch.
pub open spec fn playback_icon_spec(s: PlaybackState) -> Seq<char> {
    match s {
        PlaybackState::Playing => "\u{f04b}"@,
        PlaybackState::Paused => "\u{f04c}"@,
        PlaybackState::Stopped => "\u{f012e}"@,
    }
}

/// The glyph shown for each loop mode, with a literal "x" marking a player
/// whose loop mode is unavailable. The playlist glyph carries a distinct
/// leading marker so it is told apart from the track glyph.
pub open spec fn loop_icon_spec(info: Option<LoopMode>) -> Seq<char> {
    match info {
        Option::Some(LoopMode::NoLoop) => "\u{f04e8}"@,
        Option::Some(LoopMode::Track) => "\u{f04e6}"@,
        Option::Some(LoopMode::Playlist) => "\u{e5ff} \u{f04e6}"@,
        Option::None => "x"@,
    }
}

/// The playback-state glyph as text.
pub fn playback_icon(s: PlaybackState) -> (r: &'static str)
    ensures
        r@ == playback_icon_spec(s),
{
    match s {
        PlaybackState::Playing => "\u{f04b}",
        PlaybackState::Paused => "\u{f04c}",
        PlaybackState::Stopped => "\u{f012e}",
    }
}

/// The loop-mode glyph as text.
pub fn loop_icon(info: Option<LoopMode>) -> (r: &'static str)
    ensures
        r@ == loop_icon_spec(info),
{
    match info {
        Option::Some(LoopMode::NoLoop) => "\u{f04e8}",
        Option::Some(LoopMode::Track) => "\u{f04e6}",
        Option::Some(LoopMode::Playlist) => "\u{e5ff} \u{f04e6}",
        Option::None => "x",
    }
}

/// Law: distinct playback states get visually distinct glyphs, and distinct
/// loop modes (the unavailable marker included) get visually distinct texts.
/// Totality of both mappings is by the exhaustive match in their definitions.
pub proof fn lemma_icons_distinct(a: PlaybackState, b: PlaybackState, c: Option<LoopMode>, d: Option<LoopMode>)
    ensures
        playback_icon_spec(a) == playback_icon_spec(b) ==> a == b,
        loop_icon_spec(c) == loop_icon_spec(d) ==> c == d,
{
    reveal_strlit("\u{f04b}");
    reveal_strlit("\u{f04c}");
    reveal_strlit("\u{f012e}");
    reveal_strlit("\u{f04e8}");
    reveal_strlit("\u{f04e6}");
    reveal_strlit("\u{e5ff} \u{f04e6}");
    reveal_strlit("x");
    assert("\u{f04b}"@[0] == '\u{f04b}');
    assert("\u{f04c}"@[0] == '\u{f04c}');
    assert("\u{f012e}"@[0] == '\u{f012e}');
    assert("\u{f04e8}"@[0] == '\u{f04e8}');
    assert("\u{f04e6}"@[0] == '\u{f04e6}');
    assert("\u{e5ff} \u{f04e6}"@.len() == 3);
    assert("\u{f04e8}"@.len() == 1);
    assert("\u{f04e6}"@.len() == 1);
    assert("x"@[0] == 'x');
    assert("x"@.len() == 1);
}

/// The full display line for one player:
/// playback glyph, loop glyph, title, " - ", artist, and the identity in
/// parentheses.
pub open spec fn display_line_spec(p: PlayerSnapshot) -> Seq<char> {
    playback_icon_spec(p.playback) + " "@ + loop_icon_spec(p.loop_info) + " "@
        + normalized_title(p.bag) + " - "@ + normalized_artist(p.bag) + " ("@ + p.identity@
        + ")"@
}

/// Compose the display line for one player.
pub fn render_line(p: &PlayerSnapshot) -> (r: String)
    ensures
        r@ == display_line_spec(*p),
{
    let meta = normalize_metadata(&p.bag);
    let mut line: String = playback_icon(p.playback).to_owned();
    line.append(" ");
    line.append(loop_icon(p.loop_info));
    line.append(" ");
    line.append(meta.title.as_str());
    line.append(" - ");
    line.append(meta.artist.as_str());
    line.append(" (");
    line.append(p.identity.as_str());
    line.append(")");
    line
}

/// Build one display line per player, in the order the registry listed them.
/// The line at each index describes exactly the player at that index, so the
/// index the menu returns leads back to the player the chosen line showed.
pub fn build_lines(players: &Vec<PlayerSnapshot>) -> (r: Vec<String>)
    ensures
        r@.len() == players@.len(),
        forall|i: int| 0 <= i < players@.len() ==> (#[trigger] r@[i])@ == display_line_spec(
            players@[i],
        ),
{
    let mut lines: Vec<String> = Vec::new();
    let mut k: usize = 0;
    while k < players.len()
        invariant
            k <= players@.len(),
            lines@.len() == k,
            forall|i: int| 0 <= i < k ==> (#[trigger] lines@[i])@ == display_line_spec(
                players@[i],
            ),
        decreases players@.len() - k,
    {
        let line = render_line(&players[k]);
        lines.push(line);
        k = k + 1;
    }
    lines
}

/// The fixed label the menu is shown with.
pub fn menu_prompt() -> (r: &'static str)
    ensures
        r@ == " Select Player "@,
{
    " Select Player "
}

} // verus!
