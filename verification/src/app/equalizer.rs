//! The equalizer page: choosing, toggling, editing, renaming, creating and
//! deleting presets with the keyboard. Band gains are floating-point and
//! preset files live on disk, so both are left to the caller: the handler
//! decides and names the action, the caller carries it out and, for the
//! actions that touch files, reports success back.

use vstd::prelude::*;
use crate::app::keys::{
    is_down, is_left, is_right, is_up, key_is_char, key_is_down, key_is_left, key_is_right, key_is_up,
    Key, KeyPress,
};
use crate::app::settings::Direction;
use crate::text::{eq_ignore_ascii_case, pop_char, push_char, strings_eq_ignore_ascii_case, trim_whitespace, trimmed};

verus! {

/// Number of equalizer bands.
pub const EQ_BAND_COUNT: usize = 10;

/// The most bytes a preset name may have while it is typed.
pub const MAX_RENAME_BYTES: usize = 48;

/// The state of the equalizer page (the name being typed is kept apart).
#[derive(Clone, Copy, PartialEq, Eq, Structural, Debug)]
pub struct EqualizerPage {
    /// A preset name is being typed.
    pub renaming: bool,
    /// The bands of the selected preset are being edited.
    pub editing: bool,
    /// The band being edited (0 to 9).
    pub selected_band: usize,
    /// The selected preset.
    pub preset_index: usize,
    /// Whether the equalizer is on.
    pub enabled: bool,
}

/// What the caller has to do after a key.
#[derive(Clone, Copy, PartialEq, Eq, Structural, Debug)]
pub enum EqAction {
    Nothing,
    /// Rename the preset at `index` to the trimmed typed name (the preset
    /// file is renamed; on success call [`finish_rename`]).
    Rename { index: usize },
    /// Save the preset at `index` to its file.
    SavePreset { index: usize },
    /// Raise a band by 0.5 dB, or by 2 dB when `large`, up to +20 dB.
    RaiseBand { band: usize, large: bool },
    /// Lower a band by 0.5 dB, or by 2 dB when `large`, down to -20 dB.
    LowerBand { band: usize, large: bool },
    /// Set a band to 0 dB.
    ZeroBand { band: usize },
    /// Set every band to 0 dB.
    ResetBands,
    /// Select the previous or next preset.
    StepPreset(Direction),
    /// Create a new preset as a copy of the selected one (on success call
    /// [`finish_create`]).
    CreatePreset,
    /// Delete the preset at `index` (on success call [`finish_delete`]).
    DeletePreset { index: usize },
}

/// The message shown after a key.
#[derive(Clone, Copy, PartialEq, Eq, Structural, Debug)]
pub enum EqNotice {
    RenameCanceled,
    EmptyName,
    DuplicateName,
    PresetSaved,
    EditingHelp,
    RenameHelp,
    /// The equalizer's state: on or off, and the selected preset.
    Status,
    CannotDeleteLast,
    BandsReset,
    Renamed,
    Created,
    Deleted,
}

/// The decision made for a key.
#[derive(Clone, Copy, PartialEq, Eq, Structural, Debug)]
pub struct EqOutcome {
    pub action: EqAction,
    pub notice: Option<EqNotice>,
    /// Store `enabled` and the selected preset's name in the configuration
    /// and save it.
    pub save_config: bool,
    /// Apply the equalizer to the audio backend (after a short delay).
    pub apply: bool,
}

/// An outcome with only an action.
pub open spec fn only(action: EqAction) -> EqOutcome {
    EqOutcome { action, notice: None, save_config: false, apply: false }
}

/// Whether another preset than the one at `index` has `name`, ignoring
/// ASCII case.
pub open spec fn name_taken(names: Seq<Seq<char>>, index: int, name: Seq<char>) -> bool {
    exists|j: int| 0 <= j < names.len() && j != index && eq_ignore_ascii_case(#[trigger] names[j], name)
}

/// Whether a character may be typed into a preset name: a space or a
/// visible ASCII character.
pub open spec fn typable(c: char) -> bool {
    c == ' ' || ('!' <= c <= '~')
}

/// The effect of a key while a preset name is typed.
pub open spec fn rename_step(p: EqualizerPage, buffer: Seq<char>, names: Seq<Seq<char>>, key: KeyPress) -> (EqualizerPage, Seq<char>, EqOutcome) {
    if key.key == Key::Esc {
        (
            EqualizerPage { renaming: false, ..p },
            Seq::empty(),
            EqOutcome { notice: Some(EqNotice::RenameCanceled), ..only(EqAction::Nothing) },
        )
    } else if key.key == Key::Enter {
        let name = trimmed(buffer);
        if name.len() == 0 {
            (p, buffer, EqOutcome { notice: Some(EqNotice::EmptyName), ..only(EqAction::Nothing) })
        } else if name_taken(names, p.preset_index as int, name) {
            (p, buffer, EqOutcome { notice: Some(EqNotice::DuplicateName), ..only(EqAction::Nothing) })
        } else {
            (p, buffer, only(EqAction::Rename { index: p.preset_index }))
        }
    } else if key.key == Key::Backspace {
        (p, if buffer.len() > 0 { buffer.drop_last() } else { buffer }, only(EqAction::Nothing))
    } else {
        match key.key {
            Key::Char(c) => if !key.control_or_alt && typable(c) && (vstd::utf8::encode_utf8(
                buffer,
            ).len() as usize) < 48 {
                (p, buffer.push(c), only(EqAction::Nothing))
            } else {
                (p, buffer, only(EqAction::Nothing))
            },
            _ => (p, buffer, only(EqAction::Nothing)),
        }
    }
}

/// The effect of a key while bands are edited.
pub open spec fn edit_step(p: EqualizerPage, key: KeyPress) -> (EqualizerPage, EqOutcome) {
    let k = key.key;
    if k == Key::Esc || k == Key::Char('e') {
        (
            EqualizerPage { editing: false, ..p },
            EqOutcome {
                notice: Some(EqNotice::PresetSaved),
                ..only(EqAction::SavePreset { index: p.preset_index })
            },
        )
    } else if is_up(k) {
        (
            if p.selected_band > 0 {
                EqualizerPage { selected_band: (p.selected_band - 1) as usize, ..p }
            } else {
                p
            },
            only(EqAction::Nothing),
        )
    } else if is_down(k) {
        (
            if p.selected_band < 9 {
                EqualizerPage { selected_band: (p.selected_band + 1) as usize, ..p }
            } else {
                p
            },
            only(EqAction::Nothing),
        )
    } else if is_right(k) {
        (
            p,
            EqOutcome {
                apply: p.enabled,
                ..only(EqAction::RaiseBand { band: p.selected_band, large: key.shift })
            },
        )
    } else if is_left(k) {
        (
            p,
            EqOutcome {
                apply: p.enabled,
                ..only(EqAction::LowerBand { band: p.selected_band, large: key.shift })
            },
        )
    } else if k == Key::Char('0') {
        (p, EqOutcome { apply: p.enabled, ..only(EqAction::ZeroBand { band: p.selected_band }) })
    } else if k == Key::Char('r') {
        (
            p,
            EqOutcome {
                apply: p.enabled,
                notice: Some(EqNotice::BandsReset),
                ..only(EqAction::ResetBands)
            },
        )
    } else {
        (p, only(EqAction::Nothing))
    }
}

/// A change that saves the configuration and shows the equalizer status.
pub open spec fn status_change(p: EqualizerPage, action: EqAction) -> EqOutcome {
    EqOutcome { action, notice: Some(EqNotice::Status), save_config: true, apply: p.enabled }
}

/// The effect of a key in the preset list (`count` presets); `buffer` is
/// the typed name, set to the selected preset's name when renaming starts.
pub open spec fn browse_step(p: EqualizerPage, buffer: Seq<char>, names: Seq<Seq<char>>, key: KeyPress) -> (EqualizerPage, Seq<char>, EqOutcome) {
    let k = key.key;
    let count = names.len();
    if is_up(k) {
        if p.preset_index > 0 {
            let q = EqualizerPage { preset_index: (p.preset_index - 1) as usize, ..p };
            (q, buffer, status_change(q, EqAction::Nothing))
        } else {
            (p, buffer, only(EqAction::Nothing))
        }
    } else if is_down(k) {
        if p.preset_index + 1 < count {
            let q = EqualizerPage { preset_index: (p.preset_index + 1) as usize, ..p };
            (q, buffer, status_change(q, EqAction::Nothing))
        } else {
            (p, buffer, only(EqAction::Nothing))
        }
    } else if is_left(k) {
        (p, buffer, status_change(p, EqAction::StepPreset(Direction::Previous)))
    } else if is_right(k) {
        (p, buffer, status_change(p, EqAction::StepPreset(Direction::Next)))
    } else if k == Key::Enter || k == Key::Char(' ') {
        let q = EqualizerPage { enabled: !p.enabled, ..p };
        (q, buffer, EqOutcome { apply: true, ..status_change(q, EqAction::Nothing) })
    } else if k == Key::Char('e') {
        (
            EqualizerPage { editing: true, selected_band: 0, ..p },
            buffer,
            EqOutcome { notice: Some(EqNotice::EditingHelp), ..only(EqAction::Nothing) },
        )
    } else if k == Key::Char('R') {
        (
            EqualizerPage { renaming: true, ..p },
            names[p.preset_index as int],
            EqOutcome { notice: Some(EqNotice::RenameHelp), ..only(EqAction::Nothing) },
        )
    } else if k == Key::Char('n') {
        (p, buffer, only(EqAction::CreatePreset))
    } else if k == Key::Char('D') {
        if count <= 1 {
            (p, buffer, EqOutcome { notice: Some(EqNotice::CannotDeleteLast), ..only(EqAction::Nothing) })
        } else {
            (p, buffer, only(EqAction::DeletePreset { index: p.preset_index }))
        }
    } else {
        (p, buffer, only(EqAction::Nothing))
    }
}

/// The effect of a key on the equalizer page.
pub open spec fn equalizer_step(p: EqualizerPage, buffer: Seq<char>, names: Seq<Seq<char>>, key: KeyPress) -> (EqualizerPage, Seq<char>, EqOutcome) {
    if p.renaming {
        rename_step(p, buffer, names, key)
    } else if p.editing {
        let (q, o) = edit_step(p, key);
        (q, buffer, o)
    } else {
        browse_step(p, buffer, names, key)
    }
}

/// The views of the preset names.
pub open spec fn name_views(names: Seq<String>) -> Seq<Seq<char>> {
    names.map_values(|n: String| n@)
}

fn name_is_taken(names: &[String], index: usize, name: &str) -> (taken: bool)
    ensures
        taken == name_taken(name_views(names@), index as int, name@),
{
    let mut j: usize = 0;
    while j < names.len()
        invariant
            j <= names@.len(),
            forall|k: int| 0 <= k < j && k != index ==> !eq_ignore_ascii_case(
                #[trigger] name_views(names@)[k],
                name@,
            ),
        decreases names.len() - j,
    {
        if j != index && strings_eq_ignore_ascii_case(names[j].as_str(), name) {
            proof {
                assert(name_views(names@)[j as int] == names@[j as int]@);
            }
            return true;
        }
        proof {
            assert(name_views(names@)[j as int] == names@[j as int]@);
        }
        j = j + 1;
    }
    false
}

fn outcome(action: EqAction, notice: Option<EqNotice>, save_config: bool, apply: bool) -> (o: EqOutcome)
    ensures
        o == (EqOutcome { action, notice, save_config, apply }),
{
    EqOutcome { action, notice, save_config, apply }
}

fn handle_rename_key(page: &mut EqualizerPage, buffer: &mut String, names: &[String], key: KeyPress) -> (o: EqOutcome)
    requires
        old(page).renaming,
    ensures
        (*final(page), final(buffer)@, o) == rename_step(*old(page), old(buffer)@, name_views(names@), key),
{
    if key.key == Key::Esc {
        page.renaming = false;
        *buffer = String::new();
        return outcome(EqAction::Nothing, Some(EqNotice::RenameCanceled), false, false);
    }
    if key.key == Key::Enter {
        let name = trim_whitespace(buffer.as_str());
        if name.as_str().is_empty() {
            return outcome(EqAction::Nothing, Some(EqNotice::EmptyName), false, false);
        }
        if name_is_taken(names, page.preset_index, name.as_str()) {
            return outcome(EqAction::Nothing, Some(EqNotice::DuplicateName), false, false);
        }
        return outcome(EqAction::Rename { index: page.preset_index }, None, false, false);
    }
    if key.key == Key::Backspace {
        pop_char(buffer);
        return outcome(EqAction::Nothing, None, false, false);
    }
    match key.key {
        Key::Char(c) => {
            if !key.control_or_alt && (c == ' ' || ('!' <= c && c <= '~')) {
                if buffer.as_str().len() < MAX_RENAME_BYTES {
                    push_char(buffer, c);
                }
            }
        },
        _ => {},
    }
    outcome(EqAction::Nothing, None, false, false)
}

fn handle_edit_key(page: &mut EqualizerPage, key: KeyPress) -> (o: EqOutcome)
    ensures
        (*final(page), o) == edit_step(*old(page), key),
{
    let k = key.key;
    if k == Key::Esc || key_is_char(k, 'e') {
        page.editing = false;
        outcome(EqAction::SavePreset { index: page.preset_index }, Some(EqNotice::PresetSaved), false, false)
    } else if key_is_up(k) {
        if page.selected_band > 0 {
            page.selected_band = page.selected_band - 1;
        }
        outcome(EqAction::Nothing, None, false, false)
    } else if key_is_down(k) {
        if page.selected_band < EQ_BAND_COUNT - 1 {
            page.selected_band = page.selected_band + 1;
        }
        outcome(EqAction::Nothing, None, false, false)
    } else if key_is_right(k) {
        outcome(EqAction::RaiseBand { band: page.selected_band, large: key.shift }, None, false, page.enabled)
    } else if key_is_left(k) {
        outcome(EqAction::LowerBand { band: page.selected_band, large: key.shift }, None, false, page.enabled)
    } else if key_is_char(k, '0') {
        outcome(EqAction::ZeroBand { band: page.selected_band }, None, false, page.enabled)
    } else if key_is_char(k, 'r') {
        outcome(EqAction::ResetBands, Some(EqNotice::BandsReset), false, page.enabled)
    } else {
        outcome(EqAction::Nothing, None, false, false)
    }
}

fn handle_browse_key(page: &mut EqualizerPage, buffer: &mut String, names: &[String], key: KeyPress) -> (o: EqOutcome)
    requires
        !old(page).renaming,
        !old(page).editing,
        old(page).preset_index < names@.len(),
    ensures
        (*final(page), final(buffer)@, o) == browse_step(*old(page), old(buffer)@, name_views(names@), key),
{
    let k = key.key;
    if key_is_up(k) {
        if page.preset_index > 0 {
            page.preset_index = page.preset_index - 1;
            return outcome(EqAction::Nothing, Some(EqNotice::Status), true, page.enabled);
        }
        outcome(EqAction::Nothing, None, false, false)
    } else if key_is_down(k) {
        if page.preset_index < names.len() - 1 {
            page.preset_index = page.preset_index + 1;
            return outcome(EqAction::Nothing, Some(EqNotice::Status), true, page.enabled);
        }
        outcome(EqAction::Nothing, None, false, false)
    } else if key_is_left(k) {
        outcome(EqAction::StepPreset(Direction::Previous), Some(EqNotice::Status), true, page.enabled)
    } else if key_is_right(k) {
        outcome(EqAction::StepPreset(Direction::Next), Some(EqNotice::Status), true, page.enabled)
    } else if k == Key::Enter || key_is_char(k, ' ') {
        page.enabled = !page.enabled;
        outcome(EqAction::Nothing, Some(EqNotice::Status), true, true)
    } else if key_is_char(k, 'e') {
        page.editing = true;
        page.selected_band = 0;
        outcome(EqAction::Nothing, Some(EqNotice::EditingHelp), false, false)
    } else if key_is_char(k, 'R') {
        page.renaming = true;
        *buffer = names[page.preset_index].clone();
        proof {
            assert(name_views(names@)[old(page).preset_index as int] == names@[old(page).preset_index as int]@);
        }
        outcome(EqAction::Nothing, Some(EqNotice::RenameHelp), false, false)
    } else if key_is_char(k, 'n') {
        outcome(EqAction::CreatePreset, None, false, false)
    } else if key_is_char(k, 'D') {
        if names.len() <= 1 {
            outcome(EqAction::Nothing, Some(EqNotice::CannotDeleteLast), false, false)
        } else {
            outcome(EqAction::DeletePreset { index: page.preset_index }, None, false, false)
        }
    } else {
        outcome(EqAction::Nothing, None, false, false)
    }
}

/// Handles a key on the equalizer page. `buffer` is the preset name being
/// typed and `names` the names of the presets, in order.
pub fn handle_equalizer_key(page: &mut EqualizerPage, buffer: &mut String, names: &[String], key: KeyPress) -> (o: EqOutcome)
    requires
        old(page).preset_index < names@.len(),
    ensures
        (*final(page), final(buffer)@, o) == equalizer_step(*old(page), old(buffer)@, name_views(names@), key),
{
    if page.renaming {
        handle_rename_key(page, buffer, names, key)
    } else if page.editing {
        handle_edit_key(page, key)
    } else {
        handle_browse_key(page, buffer, names, key)
    }
}

/// The trimmed name typed for a rename.
pub fn typed_name(buffer: &str) -> (name: String)
    ensures
        name@ == trimmed(buffer@),
{
    trim_whitespace(buffer)
}

/// After a successful rename: leave rename mode, clear the typed name and
/// save the configuration.
pub fn finish_rename(page: &mut EqualizerPage, buffer: &mut String) -> (o: EqOutcome)
    ensures
        *final(page) == (EqualizerPage { renaming: false, ..*old(page) }),
        final(buffer)@.len() == 0,
        o == (EqOutcome { notice: Some(EqNotice::Renamed), save_config: true, ..only(EqAction::Nothing) }),
{
    page.renaming = false;
    *buffer = String::new();
    outcome(EqAction::Nothing, Some(EqNotice::Renamed), true, false)
}

/// After a successful creation: select the new preset (when it was found
/// in the list), save the configuration and apply the equalizer if it is on.
pub fn finish_create(page: &mut EqualizerPage, new_index: Option<usize>) -> (o: EqOutcome)
    ensures
        *final(page) == match new_index {
            Some(i) => EqualizerPage { preset_index: i, ..*old(page) },
            None => *old(page),
        },
        o == (EqOutcome {
            notice: Some(EqNotice::Created),
            save_config: true,
            apply: old(page).enabled,
            ..only(EqAction::Nothing)
        }),
{
    if let Some(i) = new_index {
        page.preset_index = i;
    }
    outcome(EqAction::Nothing, Some(EqNotice::Created), true, page.enabled)
}

/// After a successful deletion, with `remaining` presets left: keep the
/// selection on the same position, or on the last preset.
pub fn finish_delete(page: &mut EqualizerPage, remaining: usize) -> (o: EqOutcome)
    ensures
        *final(page) == (EqualizerPage {
            preset_index: if old(page).preset_index < remaining {
                old(page).preset_index
            } else if remaining > 0 {
                (remaining - 1) as usize
            } else {
                0
            },
            ..*old(page)
        }),
        o == (EqOutcome {
            notice: Some(EqNotice::Deleted),
            save_config: true,
            apply: old(page).enabled,
            ..only(EqAction::Nothing)
        }),
{
    let last = if remaining > 0 { remaining - 1 } else { 0 };
    if page.preset_index > last {
        page.preset_index = last;
    }
    outcome(EqAction::Nothing, Some(EqNotice::Deleted), true, page.enabled)
}

/// The selection stays on a preset and the edited band on a band: from a
/// valid page every key leads to a valid page.
pub proof fn equalizer_page_stays_valid(p: EqualizerPage, buffer: Seq<char>, names: Seq<Seq<char>>, key: KeyPress)
    requires
        p.preset_index < names.len(),
        p.selected_band < 10,
    ensures
        equalizer_step(p, buffer, names, key).0.preset_index < names.len(),
        equalizer_step(p, buffer, names, key).0.selected_band < 10,
{
}

/// A typed name never grows past the limit: while renaming, a name of at
/// most 48 bytes stays at most 48 bytes after any key (characters that can
/// be typed are single bytes).
pub proof fn typed_name_stays_short(p: EqualizerPage, buffer: Seq<char>, names: Seq<Seq<char>>, key: KeyPress)
    requires
        p.renaming,
        vstd::utf8::encode_utf8(buffer).len() <= 48,
    ensures
        vstd::utf8::encode_utf8(equalizer_step(p, buffer, names, key).1).len() <= 48,
{
    let after = equalizer_step(p, buffer, names, key).1;
    if key.key == Key::Backspace && buffer.len() > 0 {
        lemma_encode_utf8_concat(buffer.drop_last(), seq![buffer.last()]);
        assert(buffer.drop_last() + seq![buffer.last()] =~= buffer);
    } else if key.key == Key::Esc {
        assert(after.len() == 0);
    } else {
        match key.key {
            Key::Char(c) => {
                if !key.control_or_alt && typable(c) && (vstd::utf8::encode_utf8(buffer).len() as usize)
                    < 48 {
                    lemma_encode_utf8_concat(buffer, seq![c]);
                    assert(seq![c].drop_first() =~= Seq::<char>::empty());
                    assert(vstd::utf8::encode_utf8(Seq::<char>::empty()) =~= Seq::<u8>::empty());
                    assert(buffer.push(c) =~= buffer + seq![c]);
                    assert(vstd::utf8::encode_utf8(seq![c]) =~= vstd::utf8::encode_scalar(c as u32));
                }
            },
            _ => {},
        }
    }
}

/// UTF-8 encoding distributes over concatenation.
proof fn lemma_encode_utf8_concat(a: Seq<char>, b: Seq<char>)
    ensures
        vstd::utf8::encode_utf8(a + b) == vstd::utf8::encode_utf8(a) + vstd::utf8::encode_utf8(b),
    decreases a.len(),
{
    if a.len() == 0 {
        assert(a + b =~= b);
    } else {
        lemma_encode_utf8_concat(a.drop_first(), b);
        assert((a + b).drop_first() =~= a.drop_first() + b);
        assert((a + b)[0] == a[0]);
    }
}

/// A confirmed rename never clashes: the rename action is only given for a
/// non-empty trimmed name that no other preset has, ignoring ASCII case.
pub proof fn rename_only_to_fresh_names(p: EqualizerPage, buffer: Seq<char>, names: Seq<Seq<char>>, key: KeyPress)
    requires
        equalizer_step(p, buffer, names, key).2.action matches EqAction::Rename { .. },
    ensures
        trimmed(buffer).len() > 0,
        !name_taken(names, p.preset_index as int, trimmed(buffer)),
{
}

/// Deleting never removes the last preset: the delete action is only
/// given when at least two presets exist.
pub proof fn delete_keeps_a_preset(p: EqualizerPage, buffer: Seq<char>, names: Seq<Seq<char>>, key: KeyPress)
    requires
        equalizer_step(p, buffer, names, key).2.action matches EqAction::DeletePreset { .. },
    ensures
        names.len() >= 2,
{
}

/// Moving undoes itself: in the preset list, Down then Up comes back to
/// the same preset (when one follows it); while editing, Down then Up
/// comes back to the same band (when one follows it).
pub proof fn equalizer_moves_undo(p: EqualizerPage, buffer: Seq<char>, names: Seq<Seq<char>>)
    requires
        !p.renaming,
        names.len() <= usize::MAX,
    ensures
        !p.editing && p.preset_index + 1 < names.len() ==> equalizer_step(
            equalizer_step(p, buffer, names, KeyPress { key: Key::Down, shift: false, control_or_alt: false }).0,
            buffer,
            names,
            KeyPress { key: Key::Up, shift: false, control_or_alt: false },
        ).0 == p,
        p.editing && p.selected_band < 9 ==> equalizer_step(
            equalizer_step(p, buffer, names, KeyPress { key: Key::Down, shift: false, control_or_alt: false }).0,
            buffer,
            names,
            KeyPress { key: Key::Up, shift: false, control_or_alt: false },
        ).0 == p,
{
}

/// Left/`h` and Right/`l` go opposite ways. In the preset list they
/// select the previous and the next preset (the page and the typed name
/// stay, the configuration is saved, and the equalizer is applied when
/// on); while bands are edited they lower and raise the selected band.
pub proof fn left_right_go_opposite_ways(p: EqualizerPage, buffer: Seq<char>, names: Seq<Seq<char>>, key: KeyPress)
    requires
        !p.renaming,
    ensures
        !p.editing && (key.key == Key::Left || key.key == Key::Char('h')) ==> equalizer_step(
            p,
            buffer,
            names,
            key,
        ) == (p, buffer, EqOutcome {
            action: EqAction::StepPreset(Direction::Previous),
            notice: Some(EqNotice::Status),
            save_config: true,
            apply: p.enabled,
        }),
        !p.editing && (key.key == Key::Right || key.key == Key::Char('l')) ==> equalizer_step(
            p,
            buffer,
            names,
            key,
        ) == (p, buffer, EqOutcome {
            action: EqAction::StepPreset(Direction::Next),
            notice: Some(EqNotice::Status),
            save_config: true,
            apply: p.enabled,
        }),
        p.editing && (key.key == Key::Left || key.key == Key::Char('h')) ==> equalizer_step(
            p,
            buffer,
            names,
            key,
        ) == (p, buffer, EqOutcome {
            action: EqAction::LowerBand { band: p.selected_band, large: key.shift },
            notice: None,
            save_config: false,
            apply: p.enabled,
        }),
        p.editing && (key.key == Key::Right || key.key == Key::Char('l')) ==> equalizer_step(
            p,
            buffer,
            names,
            key,
        ) == (p, buffer, EqOutcome {
            action: EqAction::RaiseBand { band: p.selected_band, large: key.shift },
            notice: None,
            save_config: false,
            apply: p.enabled,
        }),
{
}

/// The other keys of the preset list: Enter or Space switches the
/// equalizer on or off and applies it; `e` starts editing at the first
/// band; `R` starts renaming with the selected preset's name typed; `n`
/// asks to create a preset; `D` asks to delete the selected preset, unless
/// it is the only one.
pub proof fn preset_list_keys(p: EqualizerPage, buffer: Seq<char>, names: Seq<Seq<char>>, key: KeyPress)
    requires
        !p.renaming,
        !p.editing,
    ensures
        (key.key == Key::Enter || key.key == Key::Char(' ')) ==> equalizer_step(p, buffer, names, key) == (
            EqualizerPage { enabled: !p.enabled, ..p },
            buffer,
            EqOutcome {
                action: EqAction::Nothing,
                notice: Some(EqNotice::Status),
                save_config: true,
                apply: true,
            },
        ),
        key.key == Key::Char('e') ==> equalizer_step(p, buffer, names, key).0 == (EqualizerPage {
            editing: true,
            selected_band: 0,
            ..p
        }),
        key.key == Key::Char('R') ==> equalizer_step(p, buffer, names, key).0 == (EqualizerPage {
            renaming: true,
            ..p
        }) && equalizer_step(p, buffer, names, key).1 == names[p.preset_index as int],
        key.key == Key::Char('n') ==> equalizer_step(p, buffer, names, key) == (
            p,
            buffer,
            only(EqAction::CreatePreset),
        ),
        key.key == Key::Char('D') && names.len() >= 2 ==> equalizer_step(p, buffer, names, key) == (
            p,
            buffer,
            only(EqAction::DeletePreset { index: p.preset_index }),
        ),
        key.key == Key::Char('D') && names.len() < 2 ==> equalizer_step(p, buffer, names, key).2.action
            == EqAction::Nothing,
{
}

/// While bands are edited: Esc or `e` stops editing and asks to save the
/// selected preset; `0` sets the selected band to 0 dB and `r` resets all
/// bands, both applied when the equalizer is on.
pub proof fn band_editing_keys(p: EqualizerPage, buffer: Seq<char>, names: Seq<Seq<char>>, key: KeyPress)
    requires
        !p.renaming,
        p.editing,
    ensures
        (key.key == Key::Esc || key.key == Key::Char('e')) ==> equalizer_step(p, buffer, names, key).0 == (
        EqualizerPage { editing: false, ..p })
            && equalizer_step(p, buffer, names, key).2.action == (EqAction::SavePreset {
            index: p.preset_index,
        }),
        key.key == Key::Char('0') ==> equalizer_step(p, buffer, names, key) == (
            p,
            buffer,
            EqOutcome { apply: p.enabled, ..only(EqAction::ZeroBand { band: p.selected_band }) },
        ),
        key.key == Key::Char('r') ==> equalizer_step(p, buffer, names, key).2.action == EqAction::ResetBands
            && equalizer_step(p, buffer, names, key).2.apply == p.enabled,
{
}

/// While a name is typed: Esc cancels, leaving rename mode with nothing
/// typed; Enter on a non-empty trimmed name that no other preset has asks
/// to rename the selected preset; Backspace removes the last character; a
/// visible ASCII character (or a space) typed without Ctrl or Alt is
/// appended while the name is shorter than the limit.
pub proof fn renaming_keys(p: EqualizerPage, buffer: Seq<char>, names: Seq<Seq<char>>, key: KeyPress)
    requires
        p.renaming,
    ensures
        key.key == Key::Esc ==> equalizer_step(p, buffer, names, key).0 == (EqualizerPage {
            renaming: false,
            ..p
        }) && equalizer_step(p, buffer, names, key).1.len() == 0,
        key.key == Key::Enter && trimmed(buffer).len() > 0 && !name_taken(
            names,
            p.preset_index as int,
            trimmed(buffer),
        ) ==> equalizer_step(p, buffer, names, key) == (
            p,
            buffer,
            only(EqAction::Rename { index: p.preset_index }),
        ),
        key.key == Key::Backspace && buffer.len() > 0 ==> equalizer_step(p, buffer, names, key).1
            == buffer.drop_last(),
        forall|c: char|
            key.key == Key::Char(c) && !key.control_or_alt && (c == ' ' || ('!' <= c && c <= '~'))
                && vstd::utf8::encode_utf8(buffer).len() < 48 ==> #[trigger] equalizer_step(
                p,
                buffer,
                names,
                (KeyPress { key: Key::Char(c), ..key }),
            ).1 == buffer.push(c),
{
}

} // verus!
