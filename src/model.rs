//! The navigation state machine: screens, positions, and the find mode.
use vstd::prelude::*;
use vstd::string::StringExecFns;
use crate::json::{decode_line, fields_view, FieldView, JsonField, JsonLine, JsonLineView, json_line_of};
use crate::props::Props;
use crate::raw_json_lines::{
    attributes_of, details_fields, fields_of_refs, keys_of, ordered_fields, other_fields,
    push_ordered_fields, push_other_fields, source_text, RawJsonLine, RawJsonLines,
};
use crate::text::{contains_text, decimal, decimal_text, names_view, occurs_in, pop_char, push_char};

verus! {

/// The size of the terminal, in cells.
#[derive(Clone, Copy, PartialEq, Eq, Structural, Debug)]
pub struct Size {
    pub width: u16,
    pub height: u16,
}

/// The position in a list: the first item shown, and the selected item.
#[derive(Clone, Copy, PartialEq, Eq, Structural, Debug)]
pub struct ListPosition {
    /// The index of the first item that the list shows.
    pub offset: usize,
    /// The index of the selected item, if any.
    pub selected: Option<usize>,
}

impl ListPosition {
    /// A list scrolled to the top, with the given selection.
    pub fn with_selected(selected: Option<usize>) -> (r: ListPosition)
        ensures
            r == (ListPosition { offset: 0, selected }),
    {
        ListPosition { offset: 0, selected }
    }

    /// The selected index, if any.
    pub fn selected(&self) -> (r: Option<usize>)
        ensures
            r == self.selected,
    {
        self.selected
    }

    /// The index of the first item shown.
    pub fn offset(&self) -> (r: usize)
        ensures
            r == self.offset,
    {
        self.offset
    }

    /// Selects the given index, or nothing.
    pub fn select(&mut self, index: Option<usize>)
        ensures
            *final(self) == (ListPosition { offset: old(self).offset, selected: index }),
    {
        self.selected = index;
    }
}

/// The screen that is shown.
#[derive(Clone, Copy, PartialEq, Eq, Structural, Debug)]
pub enum Screen {
    /// The viewer has ended.
    Done,
    /// The list of all lines.
    Main,
    /// The fields of the selected line.
    ObjectDetails,
    /// The value of the selected field.
    ValueDetails,
}

impl Default for Screen {
    fn default() -> (r: Screen)
        ensures
            r == Screen::Main,
    {
        Screen::Main
    }
}

/// An input to the state machine.
#[derive(Clone, Copy, PartialEq, Eq, Structural, Debug)]
pub enum Message {
    First,
    Last,
    ScrollUp,
    ScrollDown,
    PageUp,
    PageDown,
    ScrollLeft,
    ScrollRight,
    Enter,
    Exit,
    SaveSettings,
    Resized(Size),
    OpenFindTask,
    CharacterInput(char),
    Backspace,
}

/// An incremental search: the text sought, and whether it was found.
#[derive(Clone)]
pub struct FindTask {
    /// The text sought.
    pub search_string: String,
    /// `None` until the text has been sought; then whether it was found.
    pub found: Option<bool>,
}

/// A search as plain values.
pub struct FindView {
    pub query: Seq<char>,
    pub found: Option<bool>,
}

impl View for FindTask {
    type V = FindView;

    open spec fn view(&self) -> FindView {
        FindView { query: self.search_string@, found: self.found }
    }
}

impl Default for FindTask {
    fn default() -> (r: FindTask)
        ensures
            r@ == (FindView { query: seq![], found: None }),
    {
        FindTask { search_string: String::new(), found: None }
    }
}

impl FindTask {
    /// Appends a character to the text sought; whether it is found is open again.
    pub fn add_search_char(&mut self, c: char)
        ensures
            final(self)@ == (FindView { query: old(self)@.query.push(c), found: None }),
    {
        push_char(&mut self.search_string, c);
        self.found = None;
    }

    /// Removes the last character of the text sought, if any; whether it is
    /// found is open again.
    pub fn remove_search_char(&mut self)
        ensures
            final(self)@.found == None::<bool>,
            old(self)@.query.len() == 0 ==> final(self)@.query == old(self)@.query,
            old(self)@.query.len() > 0 ==> final(self)@.query == old(self)@.query.drop_last(),
    {
        pop_char(&mut self.search_string);
        self.found = None;
    }
}

/// How the find line marks the state of the search.
#[derive(Clone, Copy, PartialEq, Eq, Structural, Debug)]
pub enum FindIndicator {
    /// Not sought yet.
    Pending,
    /// Not found.
    Missed,
    /// Found.
    Hit,
}

/// The positions on the three screens.
#[derive(Clone)]
pub struct ModelViewState {
    /// The position in the list of lines.
    pub main_window_list_state: ListPosition,
    /// The position in the list of fields.
    pub object_detail_list_state: ListPosition,
    /// The name of the selected field.
    pub selected_object_detail_field_name: Option<String>,
    /// How far the value screen is scrolled down.
    pub value_screen_vertical_scroll_offset: u16,
}

impl Default for ModelViewState {
    fn default() -> (r: ModelViewState)
        ensures
            r.main_window_list_state == ListPosition::with_selected_spec(Some(0)),
            r.object_detail_list_state == ListPosition::with_selected_spec(Some(0)),
            r.selected_object_detail_field_name is None,
            r.value_screen_vertical_scroll_offset == 0,
    {
        ModelViewState {
            main_window_list_state: ListPosition::with_selected(Some(0)),
            object_detail_list_state: ListPosition::with_selected(Some(0)),
            selected_object_detail_field_name: None,
            value_screen_vertical_scroll_offset: 0,
        }
    }
}

impl ListPosition {
    /// A list scrolled to the top, with the given selection.
    pub open spec fn with_selected_spec(selected: Option<usize>) -> ListPosition {
        ListPosition { offset: 0, selected }
    }
}

/// The state of the viewer as plain values.
pub struct ModelView {
    pub screen: Screen,
    /// The text of each line.
    pub lines: Seq<Seq<char>>,
    /// The fields shown first.
    pub order: Seq<Seq<char>>,
    /// The fields left out of the line view.
    pub suppressed: Seq<Seq<char>>,
    pub main_pos: ListPosition,
    pub object_pos: ListPosition,
    pub field_name: Option<Seq<char>>,
    pub value_scroll: u16,
    pub size: Size,
    pub high_water_mark: usize,
    pub field_offset: usize,
    pub last_action_result: Seq<char>,
    pub find: Option<FindView>,
    pub save_requested: bool,
}

/// The texts of the lines of a store.
pub open spec fn contents_of(lines: Seq<RawJsonLine>) -> Seq<Seq<char>> {
    lines.map_values(|l: RawJsonLine| l.content@)
}

/// The rows that page-wise movement covers: the height less the two border rows.
pub open spec fn page_len_of(size: Size) -> u16 {
    if size.height >= 2 {
        (size.height - 2) as u16
    } else {
        0
    }
}

/// The index nearest to `target` in a list of `len` items; none in an empty list.
pub open spec fn clamp_index(target: int, len: int) -> Option<usize> {
    if len <= 0 {
        None
    } else if target < 0 {
        Some(0)
    } else if target >= len {
        Some((len - 1) as usize)
    } else {
        Some(target as usize)
    }
}

/// `v - d`, but not below zero.
pub open spec fn sat_sub16(v: u16, d: u16) -> u16 {
    if v >= d {
        (v - d) as u16
    } else {
        0
    }
}

/// `v + d`, but not above the largest `u16`.
pub open spec fn sat_add16(v: u16, d: u16) -> u16 {
    if v + d <= u16::MAX {
        (v + d) as u16
    } else {
        u16::MAX
    }
}

/// The first index from `start` on whose text holds `query`.
pub open spec fn first_match_from(texts: Seq<Seq<char>>, query: Seq<char>, start: int) -> Option<int>
    decreases texts.len() - start,
{
    if start < 0 || start >= texts.len() {
        None
    } else if occurs_in(query, texts[start]) {
        Some(start)
    } else {
        first_match_from(texts, query, start + 1)
    }
}

/// The last index before `end` whose text holds `query`.
pub open spec fn last_match_before(texts: Seq<Seq<char>>, query: Seq<char>, end: int) -> Option<int>
    decreases end,
{
    if end <= 0 {
        None
    } else if end - 1 < texts.len() && occurs_in(query, texts[end - 1]) {
        Some(end - 1)
    } else {
        last_match_before(texts, query, end - 1)
    }
}

/// The fields in the line view of a decoded object: those named in `order`
/// first, then the others that `suppressed` does not name.
pub open spec fn main_fields(
    fields: Seq<FieldView>,
    order: Seq<Seq<char>>,
    suppressed: Seq<Seq<char>>,
) -> Seq<FieldView> {
    ordered_fields(fields, order) + other_fields(fields, order, suppressed)
}

/// The (name, value) pairs of a sequence of fields.
pub open spec fn pairs_of(fields: Seq<FieldView>) -> Seq<(Seq<char>, Seq<char>)> {
    fields.map_values(|f: FieldView| (f.key, f.text))
}

/// Where a search starts in a list: at the selected item, else at the first
/// item shown.
pub open spec fn search_start(pos: ListPosition) -> int {
    match pos.selected {
        Some(i) => i as int,
        None => pos.offset as int,
    }
}

impl ModelView {
    /// The field list of the selected line; empty where no line is selected
    /// or the line is not a JSON object.
    pub open spec fn selected_line_fields(self) -> Seq<FieldView> {
        match self.main_pos.selected {
            Some(i) => if i < self.lines.len() {
                match json_line_of(self.lines[i as int]) {
                    JsonLineView::Object(fs) => details_fields(fs, self.order),
                    _ => seq![],
                }
            } else {
                seq![]
            },
            None => seq![],
        }
    }

    /// The state with the main list's selection moved to `sel`.
    pub open spec fn with_main_selection(self, sel: Option<usize>) -> ModelView {
        ModelView { main_pos: ListPosition { selected: sel, ..self.main_pos }, ..self }
    }

    /// The state with the field list's selection moved to the field nearest
    /// to `target`, and the field's name recorded.
    pub open spec fn with_object_target(self, target: int) -> ModelView {
        let fs = self.selected_line_fields();
        let sel = clamp_index(target, fs.len() as int);
        ModelView {
            object_pos: ListPosition { selected: sel, ..self.object_pos },
            field_name: match sel {
                Some(i) => Some(fs[i as int].key),
                None => None,
            },
            ..self
        }
    }

    /// The state with the search's outcome recorded.
    pub open spec fn with_found(self, found: Option<bool>) -> ModelView {
        match self.find {
            Some(f) => ModelView { find: Some(FindView { found, ..f }), ..self },
            None => self,
        }
    }

    /// The state on another screen, with no search.
    pub open spec fn switched_to(self, screen: Screen) -> ModelView {
        ModelView { screen, find: None, ..self }
    }

    /// A search forward from the current item, or from the one after it.
    /// Only the line list and the field list are searched; elsewhere nothing
    /// changes. An empty text is not sought: the search stays pending and
    /// nothing moves.
    pub open spec fn find_forward(self, skip_current: bool) -> ModelView {
        match self.find {
            None => self,
            Some(f) => if self.screen != Screen::Main && self.screen != Screen::ObjectDetails {
                self
            } else if f.query.len() == 0 {
                self.with_found(None)
            } else {
                match self.screen {
                    Screen::Main => {
                        let start = search_start(self.main_pos) + if skip_current { 1int } else { 0int };
                        match first_match_from(self.lines, f.query, start) {
                            Some(j) => self.with_main_selection(Some(j as usize)).with_found(Some(true)),
                            None => self.with_found(Some(false)),
                        }
                    },
                    Screen::ObjectDetails => {
                        let start = search_start(self.object_pos) + if skip_current { 1int } else { 0int };
                        match first_match_from(attributes_of(self.selected_line_fields()), f.query, start) {
                            Some(j) => self.with_object_target(j).with_found(Some(true)),
                            None => self.with_found(Some(false)),
                        }
                    },
                    _ => self,
                }
            },
        }
    }

    /// A search backward from the item before the current one, on the line
    /// list and the field list only; an empty text is not sought.
    pub open spec fn find_backward(self) -> ModelView {
        match self.find {
            None => self,
            Some(f) => if self.screen != Screen::Main && self.screen != Screen::ObjectDetails {
                self
            } else if f.query.len() == 0 {
                self.with_found(None)
            } else {
                match self.screen {
                    Screen::Main => {
                        match last_match_before(self.lines, f.query, search_start(self.main_pos)) {
                            Some(j) => self.with_main_selection(Some(j as usize)).with_found(Some(true)),
                            None => self.with_found(Some(false)),
                        }
                    },
                    Screen::ObjectDetails => {
                        match last_match_before(
                            attributes_of(self.selected_line_fields()),
                            f.query,
                            search_start(self.object_pos),
                        ) {
                            Some(j) => self.with_object_target(j).with_found(Some(true)),
                            None => self.with_found(Some(false)),
                        }
                    },
                    _ => self,
                }
            },
        }
    }

    /// The handling of a message while a search is open.
    pub open spec fn find_step(self, msg: Message) -> (ModelView, Option<Message>) {
        match (msg, self.find) {
            (Message::OpenFindTask, _) => (self, Some(Message::CharacterInput('/'))),
            (Message::CharacterInput(c), Some(f)) => (
                ModelView { find: Some(FindView { query: f.query.push(c), found: None }), ..self }.find_forward(false),
                None,
            ),
            (Message::Backspace, Some(f)) => (
                ModelView {
                    find: Some(FindView {
                        query: if f.query.len() > 0 { f.query.drop_last() } else { f.query },
                        found: None,
                    }),
                    ..self
                }.find_forward(false),
                None,
            ),
            (Message::ScrollUp, _) => (self.find_backward(), None),
            (Message::ScrollDown, _) => (self.find_forward(true), None),
            (Message::Enter, _) => (self, Some(Message::ScrollDown)),
            (Message::Exit, _) => (ModelView { find: None, ..self }, None),
            _ => (self, None),
        }
    }

    /// The handling of a message on the line list.
    pub open spec fn main_step(self, msg: Message) -> ModelView {
        let len = self.lines.len() as int;
        let pl = page_len_of(self.size) as int;
        match msg {
            Message::First => if len == 0 {
                self
            } else {
                self.with_main_selection(clamp_index(0, len))
            },
            Message::Last => if len == 0 {
                self
            } else {
                self.with_main_selection(clamp_index(len - 1, len))
            },
            Message::ScrollUp => match self.main_pos.selected {
                Some(p) => self.with_main_selection(clamp_index(p - 1, len)),
                None => self,
            },
            Message::ScrollDown => match self.main_pos.selected {
                Some(p) => self.with_main_selection(clamp_index(p + 1, len)),
                None => self,
            },
            Message::PageUp => match self.main_pos.selected {
                Some(p) => self.with_main_selection(clamp_index(p - pl, len)),
                None => self,
            },
            Message::PageDown => match self.main_pos.selected {
                Some(p) => self.with_main_selection(clamp_index(p + pl, len)),
                None => self,
            },
            Message::ScrollLeft => if self.field_offset > 0 {
                ModelView { field_offset: (self.field_offset - 1) as usize, ..self }
            } else {
                self
            },
            Message::ScrollRight => if self.field_offset + 1 < self.high_water_mark {
                ModelView { field_offset: (self.field_offset + 1) as usize, ..self }
            } else {
                self
            },
            Message::OpenFindTask => ModelView { find: Some(FindView { query: seq![], found: None }), ..self },
            Message::Enter => match self.main_pos.selected {
                Some(_) => self.switched_to(Screen::ObjectDetails).with_object_target(0),
                None => self,
            },
            Message::Exit => self.switched_to(Screen::Done),
            _ => self,
        }
    }

    /// The handling of a message on the field list.
    pub open spec fn object_step(self, msg: Message) -> ModelView {
        let n = self.selected_line_fields().len() as int;
        let pl = page_len_of(self.size) as int;
        let cur = match self.object_pos.selected {
            Some(i) => i as int,
            None => 0int,
        };
        match msg {
            Message::First => self.with_object_target(0),
            Message::Last => self.with_object_target(n - 1),
            Message::ScrollUp => self.with_object_target(cur - 1),
            Message::ScrollDown => self.with_object_target(cur + 1),
            Message::PageUp => self.with_object_target(cur - pl),
            Message::PageDown => self.with_object_target(cur + pl),
            Message::OpenFindTask => ModelView { find: Some(FindView { query: seq![], found: None }), ..self },
            Message::Enter => match self.field_name {
                Some(_) => self.switched_to(Screen::ValueDetails),
                None => self,
            },
            Message::Exit => self.switched_to(Screen::Main),
            _ => self,
        }
    }

    /// The handling of a message on the value screen.
    pub open spec fn value_step(self, msg: Message) -> ModelView {
        let pl = page_len_of(self.size);
        match msg {
            Message::ScrollUp => ModelView { value_scroll: sat_sub16(self.value_scroll, 1), ..self },
            Message::ScrollDown => ModelView { value_scroll: sat_add16(self.value_scroll, 1), ..self },
            Message::PageUp => ModelView { value_scroll: sat_sub16(self.value_scroll, pl), ..self },
            Message::PageDown => ModelView { value_scroll: sat_add16(self.value_scroll, pl), ..self },
            Message::Exit => self.switched_to(Screen::ObjectDetails),
            _ => self,
        }
    }

    /// One transition of the state machine: the next state, and the message
    /// to handle next, if any.
    pub open spec fn step(self, msg: Message) -> (ModelView, Option<Message>) {
        let m = ModelView { last_action_result: seq![], ..self };
        match msg {
            Message::Resized(size) => (ModelView { size, ..m }, None),
            Message::SaveSettings => (ModelView { save_requested: true, ..m }, None),
            _ => if m.find is Some {
                m.find_step(msg)
            } else {
                match m.screen {
                    Screen::Done => (m, None),
                    Screen::Main => (m.main_step(msg), None),
                    Screen::ObjectDetails => (m.object_step(msg), None),
                    Screen::ValueDetails => (m.value_step(msg), None),
                }
            },
        }
    }
}

/// The (name, value) pairs of a sequence of string pairs.
pub open spec fn pairs_view(v: Seq<(String, String)>) -> Seq<(Seq<char>, Seq<char>)> {
    v.map_values(|p: (String, String)| (p.0@, p.1@))
}

/// The fields that the line view shows: all but the first `offset`.
pub open spec fn visible_fields(fields: Seq<FieldView>, offset: usize) -> Seq<FieldView> {
    if offset < fields.len() {
        fields.subrange(offset as int, fields.len() as int)
    } else {
        seq![]
    }
}

/// The status line's text when a save ends.
pub open spec fn save_outcome_text(saved: bool) -> Seq<char> {
    if saved {
        "Ok: settings saved"@
    } else {
        "Error: failed to save settings"@
    }
}

impl ModelView {
    /// The state once a requested save has ended.
    pub open spec fn with_save_outcome(self, saved: bool) -> ModelView {
        ModelView { last_action_result: save_outcome_text(saved), save_requested: false, ..self }
    }

    /// The full text of the selected field, if there is one.
    pub open spec fn selected_value_text(self) -> Option<Seq<char>> {
        match (self.main_pos.selected, self.field_name) {
            (Some(i), Some(k)) => if i < self.lines.len() {
                match json_line_of(self.lines[i as int]) {
                    JsonLineView::Object(fs) => match crate::raw_json_lines::field_named(fs, k, 0) {
                        Some(f) => Some(f.detail),
                        None => None,
                    },
                    _ => None,
                }
            } else {
                None
            },
            _ => None,
        }
    }
}

/// The viewer's state: the screen shown, the positions on each screen, the
/// open search, and the settings.
#[derive(Clone)]
pub struct Model<'a> {
    /// The screen shown.
    pub active_screen: Screen,
    /// The lines, read once and never changed.
    pub raw_json_lines: &'a RawJsonLines,
    /// The settings.
    pub props: Props,
    /// The positions on the screens.
    pub view_state: ModelViewState,
    /// The last known size of the terminal.
    pub terminal_size: Size,
    /// The most fields that any line rendered so far had.
    pub num_fields_high_water_mark: usize,
    /// How many leading fields the line view hides.
    pub line_rendering_field_offset: usize,
    /// The outcome of the last explicit action, for the status line.
    pub last_action_result: String,
    /// The open search, if any.
    pub find_task: Option<FindTask>,
    /// Whether the settings are to be saved.
    pub settings_save_requested: bool,
}

impl<'a> View for Model<'a> {
    type V = ModelView;

    open spec fn view(&self) -> ModelView {
        ModelView {
            screen: self.active_screen,
            lines: contents_of(self.raw_json_lines.lines@),
            order: names_view(self.props.fields_order@),
            suppressed: names_view(self.props.fields_suppressed@),
            main_pos: self.view_state.main_window_list_state,
            object_pos: self.view_state.object_detail_list_state,
            field_name: match self.view_state.selected_object_detail_field_name {
                Some(s) => Some(s@),
                None => None,
            },
            value_scroll: self.view_state.value_screen_vertical_scroll_offset,
            size: self.terminal_size,
            high_water_mark: self.num_fields_high_water_mark,
            field_offset: self.line_rendering_field_offset,
            last_action_result: self.last_action_result@,
            find: match self.find_task {
                Some(t) => Some(t@),
                None => None,
            },
            save_requested: self.settings_save_requested,
        }
    }
}

/// The index nearest to `target` in a list of `len` items.
fn clamp_to(target: usize, len: usize) -> (r: Option<usize>)
    ensures
        r == clamp_index(target as int, len as int),
{
    if len == 0 {
        None
    } else if target >= len {
        Some(len - 1)
    } else {
        Some(target)
    }
}

/// The first index from `start` on whose text holds `query`.
fn first_match(texts: &Vec<String>, query: &String, start: usize) -> (r: Option<usize>)
    ensures
        match r {
            Some(j) => first_match_from(names_view(texts@), query@, start as int) == Some(j as int),
            None => first_match_from(names_view(texts@), query@, start as int) is None,
        },
{
    let ghost t = names_view(texts@);
    let mut i = start;
    while i < texts.len()
        invariant
            t == names_view(texts@),
            first_match_from(t, query@, start as int) == first_match_from(t, query@, i as int),
        decreases texts@.len() - i,
    {
        if contains_text(texts[i].as_str(), query.as_str()) {
            return Some(i);
        }
        i += 1;
    }
    None
}

/// Past the end of the texts, a backward search starts at the last one.
proof fn lemma_last_match_past_end(texts: Seq<Seq<char>>, query: Seq<char>, end: int)
    requires
        end >= texts.len(),
    ensures
        last_match_before(texts, query, end) == last_match_before(texts, query, texts.len() as int),
    decreases end,
{
    if end > texts.len() {
        lemma_last_match_past_end(texts, query, end - 1);
    }
}

/// The last index before `end` whose text holds `query`.
fn last_match(texts: &Vec<String>, query: &String, end: usize) -> (r: Option<usize>)
    ensures
        match r {
            Some(j) => last_match_before(names_view(texts@), query@, end as int) == Some(j as int),
            None => last_match_before(names_view(texts@), query@, end as int) is None,
        },
{
    let ghost t = names_view(texts@);
    let mut i = if end < texts.len() { end } else { texts.len() };
    proof {
        if end >= texts.len() {
            lemma_last_match_past_end(t, query@, end as int);
        }
    }
    while i > 0
        invariant
            i <= texts@.len(),
            t == names_view(texts@),
            last_match_before(t, query@, end as int) == last_match_before(t, query@, i as int),
        decreases i,
    {
        if contains_text(texts[i - 1].as_str(), query.as_str()) {
            return Some(i - 1);
        }
        i -= 1;
    }
    None
}

impl<'a> Model<'a> {
    /// A viewer on the line list, with the first line selected if there is one.
    pub fn new(props: Props, terminal_size: Size, raw_json_lines: &'a RawJsonLines) -> (r: Model<'a>)
        ensures
            r@ == (ModelView {
                screen: Screen::Main,
                lines: contents_of(raw_json_lines.lines@),
                order: names_view(props.fields_order@),
                suppressed: names_view(props.fields_suppressed@),
                main_pos: ListPosition {
                    offset: 0,
                    selected: if raw_json_lines.lines@.len() == 0 { None } else { Some(0) },
                },
                object_pos: ListPosition { offset: 0, selected: Some(0) },
                field_name: None,
                value_scroll: 0,
                size: terminal_size,
                high_water_mark: 0,
                field_offset: 0,
                last_action_result: seq![],
                find: None,
                save_requested: false,
            }),
            r.raw_json_lines == raw_json_lines,
    {
        let mut view_state = ModelViewState::default();
        if raw_json_lines.is_empty() {
            view_state.main_window_list_state.select(None);
        }
        Model {
            active_screen: Screen::Main,
            raw_json_lines,
            props,
            view_state,
            terminal_size,
            num_fields_high_water_mark: 0,
            line_rendering_field_offset: 0,
            last_action_result: String::new(),
            find_task: None,
            settings_save_requested: false,
        }
    }

    /// Whether a search is open.
    pub fn has_find_task(&self) -> (r: bool)
        ensures
            r == self@.find is Some,
    {
        self.find_task.is_some()
    }

    /// The rows that page-wise movement covers.
    pub fn page_len(&self) -> (r: u16)
        ensures
            r == page_len_of(self.terminal_size),
    {
        if self.terminal_size.height >= 2 {
            self.terminal_size.height - 2
        } else {
            0
        }
    }

    /// The field list of the selected line: the items `key : value` and the
    /// field names, in the order in which the list shows them.
    pub fn produce_line_details_screen_content(&self) -> (r: (Vec<String>, Vec<String>))
        ensures
            names_view(r.0@) == attributes_of(self@.selected_line_fields()),
            names_view(r.1@) == keys_of(self@.selected_line_fields()),
    {
        match self.view_state.main_window_list_state.selected() {
            Some(i) => if i < self.raw_json_lines.lines.len() {
                self.raw_json_lines.lines[i].produce_rendered_fields_as_list(&self.props.fields_order)
            } else {
                let r = (Vec::new(), Vec::new());
                assert(names_view(r.0@) =~= seq![]);
                assert(names_view(r.1@) =~= seq![]);
                r
            },
            None => {
                let r = (Vec::new(), Vec::new());
                assert(names_view(r.0@) =~= seq![]);
                assert(names_view(r.1@) =~= seq![]);
                r
            },
        }
    }

    fn select_main(&mut self, sel: Option<usize>)
        ensures
            final(self)@ == old(self)@.with_main_selection(sel),
            final(self).raw_json_lines == old(self).raw_json_lines,
    {
        self.view_state.main_window_list_state.select(sel);
    }

    /// Selects the field nearest to `target` in the field list, and records its name.
    fn select_object_field(&mut self, target: usize)
        ensures
            final(self)@ == old(self)@.with_object_target(target as int),
            final(self).raw_json_lines == old(self).raw_json_lines,
    {
        let (_items, keys) = self.produce_line_details_screen_content();
        let ghost fs = old(self)@.selected_line_fields();
        assert(names_view(keys@).len() == keys_of(fs).len());
        let sel = clamp_to(target, keys.len());
        self.view_state.object_detail_list_state.select(sel);
        match sel {
            Some(i) => {
                assert(names_view(keys@)[i as int] == keys_of(fs)[i as int]);
                self.view_state.selected_object_detail_field_name = Some(keys[i].clone());
            },
            None => {
                self.view_state.selected_object_detail_field_name = None;
            },
        }
    }

    fn set_found(&mut self, found: Option<bool>)
        ensures
            final(self)@ == old(self)@.with_found(found),
            final(self).raw_json_lines == old(self).raw_json_lines,
    {
        match &mut self.find_task {
            Some(t) => {
                t.found = found;
            },
            None => {},
        }
    }

    fn switch_screen(&mut self, new_screen: Screen)
        ensures
            final(self)@ == old(self)@.switched_to(new_screen),
            final(self).raw_json_lines == old(self).raw_json_lines,
    {
        self.active_screen = new_screen;
        self.find_task = None;
    }
}

/// The first line from `start` on whose text holds `query`.
fn first_matching_line(lines: &Vec<RawJsonLine>, query: &String, start: usize) -> (r: Option<usize>)
    ensures
        match r {
            Some(j) => first_match_from(contents_of(lines@), query@, start as int) == Some(j as int),
            None => first_match_from(contents_of(lines@), query@, start as int) is None,
        },
{
    let ghost t = contents_of(lines@);
    let mut i = start;
    while i < lines.len()
        invariant
            t == contents_of(lines@),
            first_match_from(t, query@, start as int) == first_match_from(t, query@, i as int),
        decreases lines@.len() - i,
    {
        if contains_text(lines[i].content.as_str(), query.as_str()) {
            return Some(i);
        }
        i += 1;
    }
    None
}

/// The last line before `end` whose text holds `query`.
fn last_matching_line(lines: &Vec<RawJsonLine>, query: &String, end: usize) -> (r: Option<usize>)
    ensures
        match r {
            Some(j) => last_match_before(contents_of(lines@), query@, end as int) == Some(j as int),
            None => last_match_before(contents_of(lines@), query@, end as int) is None,
        },
{
    let ghost t = contents_of(lines@);
    let mut i = if end < lines.len() { end } else { lines.len() };
    proof {
        if end >= lines.len() {
            lemma_last_match_past_end(t, query@, end as int);
        }
    }
    while i > 0
        invariant
            i <= lines@.len(),
            t == contents_of(lines@),
            last_match_before(t, query@, end as int) == last_match_before(t, query@, i as int),
        decreases i,
    {
        if contains_text(lines[i - 1].content.as_str(), query.as_str()) {
            return Some(i - 1);
        }
        i -= 1;
    }
    None
}

/// Where a search starts in a list.
fn start_of(pos: &ListPosition) -> (r: usize)
    ensures
        r as int == search_start(*pos),
{
    match pos.selected {
        Some(i) => i,
        None => pos.offset,
    }
}

impl<'a> Model<'a> {
    /// The text sought, if a search is open.
    fn query(&self) -> (r: Option<String>)
        ensures
            match (r, self@.find) {
                (Some(q), Some(f)) => q@ == f.query,
                (None, None) => true,
                _ => false,
            },
    {
        match &self.find_task {
            Some(t) => Some(t.search_string.clone()),
            None => None,
        }
    }

    /// Searches forward from the current item, or from the one after it,
    /// and selects the first match.
    pub fn find_next(&mut self, skip_current_line: bool)
        ensures
            final(self)@ == old(self)@.find_forward(skip_current_line),
            final(self).raw_json_lines == old(self).raw_json_lines,
    {
        let q = match self.query() {
            Some(q) => q,
            None => return,
        };
        if self.active_screen != Screen::Main && self.active_screen != Screen::ObjectDetails {
            return;
        }
        if q.as_str().unicode_len() == 0 {
            self.set_found(None);
            return;
        }
        match self.active_screen {
            Screen::Main => {
                let start = start_of(&self.view_state.main_window_list_state);
                let hit = if !skip_current_line {
                    first_matching_line(&self.raw_json_lines.lines, &q, start)
                } else if start < usize::MAX {
                    first_matching_line(&self.raw_json_lines.lines, &q, start + 1)
                } else {
                    let len = self.raw_json_lines.lines.len();
                    assert(start + 1 > len);
                    None
                };
                match hit {
                    Some(j) => {
                        self.select_main(Some(j));
                        self.set_found(Some(true));
                    },
                    None => self.set_found(Some(false)),
                }
            },
            Screen::ObjectDetails => {
                let (items, _keys) = self.produce_line_details_screen_content();
                let start = start_of(&self.view_state.object_detail_list_state);
                let hit = if !skip_current_line {
                    first_match(&items, &q, start)
                } else if start < usize::MAX {
                    first_match(&items, &q, start + 1)
                } else {
                    let len = items.len();
                    assert(start + 1 > len);
                    None
                };
                match hit {
                    Some(j) => {
                        self.select_object_field(j);
                        self.set_found(Some(true));
                    },
                    None => self.set_found(Some(false)),
                }
            },
            _ => {},
        }
    }

    /// Searches backward from the item before the current one, and selects
    /// the first match.
    pub fn find_previous(&mut self)
        ensures
            final(self)@ == old(self)@.find_backward(),
            final(self).raw_json_lines == old(self).raw_json_lines,
    {
        let q = match self.query() {
            Some(q) => q,
            None => return,
        };
        if self.active_screen != Screen::Main && self.active_screen != Screen::ObjectDetails {
            return;
        }
        if q.as_str().unicode_len() == 0 {
            self.set_found(None);
            return;
        }
        match self.active_screen {
            Screen::Main => {
                let start = start_of(&self.view_state.main_window_list_state);
                match last_matching_line(&self.raw_json_lines.lines, &q, start) {
                    Some(j) => {
                        self.select_main(Some(j));
                        self.set_found(Some(true));
                    },
                    None => self.set_found(Some(false)),
                }
            },
            Screen::ObjectDetails => {
                let (items, _keys) = self.produce_line_details_screen_content();
                let start = start_of(&self.view_state.object_detail_list_state);
                match last_match(&items, &q, start) {
                    Some(j) => {
                        self.select_object_field(j);
                        self.set_found(Some(true));
                    },
                    None => self.set_found(Some(false)),
                }
            },
            _ => {},
        }
    }

    fn find_mode_update(&mut self, msg: Message) -> (r: Option<Message>)
        requires
            old(self).find_task is Some,
        ensures
            (final(self)@, r) == old(self)@.find_step(msg),
            final(self).raw_json_lines == old(self).raw_json_lines,
    {
        match msg {
            Message::OpenFindTask => Some(Message::CharacterInput('/')),
            Message::CharacterInput(c) => {
                match &mut self.find_task {
                    Some(t) => t.add_search_char(c),
                    None => {},
                }
                self.find_next(false);
                None
            },
            Message::Backspace => {
                match &mut self.find_task {
                    Some(t) => t.remove_search_char(),
                    None => {},
                }
                self.find_next(false);
                None
            },
            Message::ScrollUp => {
                self.find_previous();
                None
            },
            Message::ScrollDown => {
                self.find_next(true);
                None
            },
            Message::Enter => Some(Message::ScrollDown),
            Message::Exit => {
                self.find_task = None;
                None
            },
            _ => None,
        }
    }

    fn main_update(&mut self, msg: Message)
        ensures
            final(self)@ == old(self)@.main_step(msg),
            final(self).raw_json_lines == old(self).raw_json_lines,
    {
        let len = self.raw_json_lines.lines.len();
        let pl = self.page_len() as usize;
        let selected = self.view_state.main_window_list_state.selected();
        match msg {
            Message::First => if len > 0 {
                self.select_main(clamp_to(0, len));
            },
            Message::Last => if len > 0 {
                self.select_main(clamp_to(len - 1, len));
            },
            Message::ScrollUp => if let Some(p) = selected {
                self.select_main(clamp_to(p.saturating_sub(1), len));
            },
            Message::ScrollDown => if let Some(p) = selected {
                self.select_main(clamp_to(p.saturating_add(1), len));
            },
            Message::PageUp => if let Some(p) = selected {
                self.select_main(clamp_to(p.saturating_sub(pl), len));
            },
            Message::PageDown => if let Some(p) = selected {
                self.select_main(clamp_to(p.saturating_add(pl), len));
            },
            Message::ScrollLeft => if self.line_rendering_field_offset > 0 {
                self.line_rendering_field_offset = self.line_rendering_field_offset - 1;
            },
            Message::ScrollRight => if self.line_rendering_field_offset < usize::MAX
                && self.line_rendering_field_offset + 1 < self.num_fields_high_water_mark {
                self.line_rendering_field_offset = self.line_rendering_field_offset + 1;
            },
            Message::OpenFindTask => {
                self.find_task = Some(FindTask::default());
            },
            Message::Enter => if selected.is_some() {
                self.switch_screen(Screen::ObjectDetails);
                self.select_object_field(0);
            },
            Message::Exit => self.switch_screen(Screen::Done),
            _ => {},
        }
    }

    fn object_update(&mut self, msg: Message)
        ensures
            final(self)@ == old(self)@.object_step(msg),
            final(self).raw_json_lines == old(self).raw_json_lines,
    {
        let pl = self.page_len() as usize;
        let cur = match self.view_state.object_detail_list_state.selected() {
            Some(i) => i,
            None => 0,
        };
        let ghost m = old(self)@;
        let ghost n = m.selected_line_fields().len() as int;
        let (_items, keys) = self.produce_line_details_screen_content();
        assert(names_view(keys@).len() == keys_of(m.selected_line_fields()).len());
        let k = keys.len();
        match msg {
            Message::First => self.select_object_field(0),
            Message::Last => {
                let t = if k == 0 { 0 } else { k - 1 };
                assert(clamp_index(t as int, n) == clamp_index(n - 1, n));
                self.select_object_field(t);
            },
            Message::ScrollUp => {
                let t = cur.saturating_sub(1);
                assert(clamp_index(t as int, n) == clamp_index(cur - 1, n));
                self.select_object_field(t);
            },
            Message::ScrollDown => {
                let t = cur.saturating_add(1);
                assert(clamp_index(t as int, n) == clamp_index(cur + 1, n));
                self.select_object_field(t);
            },
            Message::PageUp => {
                let t = cur.saturating_sub(pl);
                assert(clamp_index(t as int, n) == clamp_index(cur - pl, n));
                self.select_object_field(t);
            },
            Message::PageDown => {
                let t = cur.saturating_add(pl);
                assert(clamp_index(t as int, n) == clamp_index(cur + pl, n));
                self.select_object_field(t);
            },
            Message::OpenFindTask => {
                self.find_task = Some(FindTask::default());
            },
            Message::Enter => if self.view_state.selected_object_detail_field_name.is_some() {
                self.switch_screen(Screen::ValueDetails);
            },
            Message::Exit => self.switch_screen(Screen::Main),
            _ => {},
        }
    }

    fn value_update(&mut self, msg: Message)
        ensures
            final(self)@ == old(self)@.value_step(msg),
            final(self).raw_json_lines == old(self).raw_json_lines,
    {
        let pl = self.page_len();
        let v = self.view_state.value_screen_vertical_scroll_offset;
        match msg {
            Message::ScrollUp => {
                self.view_state.value_screen_vertical_scroll_offset = v.saturating_sub(1);
            },
            Message::ScrollDown => {
                self.view_state.value_screen_vertical_scroll_offset = v.saturating_add(1);
            },
            Message::PageUp => {
                self.view_state.value_screen_vertical_scroll_offset = v.saturating_sub(pl);
            },
            Message::PageDown => {
                self.view_state.value_screen_vertical_scroll_offset = v.saturating_add(pl);
            },
            Message::Exit => self.switch_screen(Screen::ObjectDetails),
            _ => {},
        }
    }

    /// Handles one message: the next state, and the message to handle next,
    /// if any.
    pub fn updated(self, msg: Message) -> (r: (Model<'a>, Option<Message>))
        ensures
            r.0@ == self@.step(msg).0,
            r.1 == self@.step(msg).1,
            r.0.raw_json_lines == self.raw_json_lines,
    {
        let mut m = self;
        m.last_action_result = String::new();
        match msg {
            Message::Resized(size) => {
                m.terminal_size = size;
                (m, None)
            },
            Message::SaveSettings => {
                m.settings_save_requested = true;
                (m, None)
            },
            _ => {
                if m.has_find_task() {
                    let next = m.find_mode_update(msg);
                    (m, next)
                } else {
                    match m.active_screen {
                        Screen::Done => {},
                        Screen::Main => m.main_update(msg),
                        Screen::ObjectDetails => m.object_update(msg),
                        Screen::ValueDetails => m.value_update(msg),
                    }
                    (m, None)
                }
            },
        }
    }

    /// Records how a requested save of the settings ended.
    pub fn settings_saved(&mut self, saved: bool)
        ensures
            final(self)@ == old(self)@.with_save_outcome(saved),
            final(self).raw_json_lines == old(self).raw_json_lines,
    {
        self.last_action_result = if saved {
            String::from_str("Ok: settings saved")
        } else {
            String::from_str("Error: failed to save settings")
        };
        self.settings_save_requested = false;
    }
}

/// One item of the line list.
pub enum LineItem {
    /// The visible (name, value) pairs of a JSON object.
    Fields(Vec<(String, String)>),
    /// Text shown as it is.
    Text(String),
}

/// What the line list shows of a line and how the high-water mark moves:
/// the item, and the most fields seen after it.
pub open spec fn line_item_of(m: ModelView, content: Seq<char>, item: LineItem, mark: usize) -> bool {
    match json_line_of(content) {
        JsonLineView::Object(fs) => {
            let shown = main_fields(fs, m.order, m.suppressed);
            &&& item matches LineItem::Fields(pairs) && pairs_view(pairs@) == pairs_of(
                visible_fields(shown, m.field_offset),
            )
            &&& mark as int == if shown.len() > m.high_water_mark { shown.len() as int } else {
                m.high_water_mark as int
            }
        },
        JsonLineView::Other(t) => item matches LineItem::Text(x) && x@ == t && mark
            == m.high_water_mark,
        JsonLineView::Malformed => item matches LineItem::Text(x) && x@ == content && mark
            == m.high_water_mark,
    }
}

/// A walk over the line list, one item at a time.
pub struct ModelIntoIter {
    /// The index of the next line.
    pub index: usize,
}

impl ModelIntoIter {
    /// Steps over the next line without rendering it; false at the end.
    fn skip_item(&mut self, model: &Model) -> (r: bool)
        ensures
            r == (old(self).index < model.raw_json_lines.lines@.len()),
            final(self).index == if r { old(self).index + 1 } else { old(self).index as int },
    {
        if self.index >= model.raw_json_lines.lines.len() {
            false
        } else {
            self.index += 1;
            true
        }
    }

    /// Renders the next line, if there is one.
    pub fn next(&mut self, model: &mut Model) -> (r: Option<LineItem>)
        ensures
            old(self).index >= old(model).raw_json_lines.lines@.len() ==> r is None && final(self).index
                == old(self).index && final(model)@ == old(model)@,
            old(self).index < old(model).raw_json_lines.lines@.len() ==> {
                &&& final(self).index == old(self).index + 1
                &&& r matches Some(item) && line_item_of(
                    old(model)@,
                    old(model)@.lines[old(self).index as int],
                    item,
                    final(model).num_fields_high_water_mark,
                )
                &&& final(model)@ == ModelView {
                    high_water_mark: final(model).num_fields_high_water_mark,
                    ..old(model)@
                }
            },
            final(model).raw_json_lines == old(model).raw_json_lines,
    {
        if self.index >= model.raw_json_lines.lines.len() {
            return None;
        }
        let raw_line = &model.raw_json_lines.lines[self.index];
        assert(old(model)@.lines[self.index as int] == raw_line.content@);
        let item = match decode_line(raw_line.content.as_str()) {
            JsonLine::Object(fields) => LineItem::Fields(model.render_json_line(&fields)),
            JsonLine::Other(t) => LineItem::Text(t),
            JsonLine::Malformed => LineItem::Text(raw_line.content.clone()),
        };
        self.index += 1;
        Some(item)
    }

    /// Bounds on the number of items left.
    pub fn size_hint(&self, model: &Model) -> (r: (usize, Option<usize>))
        ensures
            r.0 == 0,
            r.1 == Some(if self.index < model.raw_json_lines.lines@.len() {
                (model.raw_json_lines.lines@.len() - self.index) as usize
            } else {
                0usize
            }),
    {
        let len = model.raw_json_lines.lines.len();
        (0, Some(if self.index < len { len - self.index } else { 0 }))
    }

    /// Steps over `n` lines; where fewer are left, steps to the end and
    /// returns how many steps were missing.
    pub fn advance_by(&mut self, model: &Model, n: usize) -> (r: Result<(), usize>)
        ensures
            ({
                let left = if old(self).index < model.raw_json_lines.lines@.len() {
                    model.raw_json_lines.lines@.len() - old(self).index
                } else {
                    0
                };
                &&& n <= left ==> r is Ok && final(self).index == old(self).index + n
                &&& n > left ==> r == Err::<(), usize>((n - left) as usize) && final(self).index
                    == old(self).index + left
            }),
    {
        let mut i: usize = 0;
        while i < n
            invariant
                i <= n,
                self.index == old(self).index + i,
                old(self).index + i <= model.raw_json_lines.lines@.len() || i == 0,
            decreases n - i,
        {
            if !self.skip_item(model) {
                return Err(n - i);
            }
            i += 1;
        }
        Ok(())
    }
}

impl<'a> Model<'a> {
    /// A walk over the line list from its first line.
    pub fn into_iter(&self) -> (r: ModelIntoIter)
        ensures
            r.index == 0,
    {
        ModelIntoIter { index: 0 }
    }

    /// The (name, value) pairs that the line view shows of a decoded object:
    /// fields named in the order first, then the others that are not
    /// suppressed, less the hidden leading ones. Raises the high-water mark
    /// to the object's number of shown fields.
    pub fn render_json_line(&mut self, fields: &Vec<JsonField>) -> (r: Vec<(String, String)>)
        ensures
            ({
                let shown = main_fields(fields_view(fields@), old(self)@.order, old(self)@.suppressed);
                &&& shown.len() <= usize::MAX
                &&& pairs_view(r@) == pairs_of(visible_fields(shown, old(self).line_rendering_field_offset))
                &&& final(self)@ == ModelView {
                    high_water_mark: if shown.len() > old(self).num_fields_high_water_mark {
                        shown.len() as usize
                    } else {
                        old(self).num_fields_high_water_mark
                    },
                    ..old(self)@
                }
            }),
            final(self).raw_json_lines == old(self).raw_json_lines,
    {
        let mut refs: Vec<&JsonField> = Vec::new();
        push_ordered_fields(fields, &self.props.fields_order, &mut refs);
        push_other_fields(fields, &self.props.fields_order, &self.props.fields_suppressed, &mut refs);
        let ghost shown = fields_of_refs(refs@);
        assert(shown =~= main_fields(fields_view(fields@), old(self)@.order, old(self)@.suppressed));
        let offset = self.line_rendering_field_offset;
        let mut pairs: Vec<(String, String)> = Vec::new();
        let mut i = offset;
        while i < refs.len()
            invariant
                offset <= i,
                shown == fields_of_refs(refs@),
                offset < refs@.len() ==> i <= refs@.len(),
                pairs_view(pairs@) =~= pairs_of(
                    shown.subrange(if offset < refs@.len() { offset as int } else { 0 }, if offset
                        < refs@.len() { i as int } else { 0 }),
                ),
            decreases refs@.len() - i,
        {
            let f = refs[i];
            let ghost prev = pairs@;
            pairs.push((f.key.clone(), f.text.clone()));
            assert(pairs_view(pairs@) =~= pairs_view(prev).push((shown[i as int].key, shown[i as int].text)));
            assert(shown.subrange(offset as int, i + 1) =~= shown.subrange(offset as int, i as int).push(
                shown[i as int],
            ));
            i += 1;
        }
        proof {
            if offset < refs@.len() {
                assert(shown.subrange(offset as int, refs@.len() as int) == visible_fields(shown, offset));
            } else {
                assert(pairs_view(pairs@) =~= pairs_of(visible_fields(shown, offset)));
            }
        }
        let n = refs.len();
        if n > self.num_fields_high_water_mark {
            self.num_fields_high_water_mark = n;
        }
        pairs
    }

    /// The full text of the selected field: the contents of a JSON string,
    /// the JSON notation of any other value.
    pub fn value_details_text(&self) -> (r: Option<String>)
        ensures
            match (r, self@.selected_value_text()) {
                (Some(t), Some(v)) => t@ == v,
                (None, None) => true,
                _ => false,
            },
    {
        let i = match self.view_state.main_window_list_state.selected() {
            Some(i) => i,
            None => return None,
        };
        let name = match &self.view_state.selected_object_detail_field_name {
            Some(name) => name,
            None => return None,
        };
        if i >= self.raw_json_lines.lines.len() {
            return None;
        }
        match decode_line(self.raw_json_lines.lines[i].content.as_str()) {
            JsonLine::Object(fields) => match crate::raw_json_lines::find_field(&fields, name) {
                Some(f) => Some(f.detail.clone()),
                None => None,
            },
            _ => None,
        }
    }

    /// Keeps the value screen's scroll offset within the text: at most the
    /// number of rows that the wrapped text takes less the rows that a page
    /// shows, and never below zero.
    pub fn correct_value_scroll(&mut self, wrapped_rows: usize, page_len: u16)
        ensures
            ({
                let max = if wrapped_rows > page_len { wrapped_rows - page_len } else { 0 };
                final(self)@ == ModelView {
                    value_scroll: if old(self)@.value_scroll > max { max as u16 } else {
                        old(self)@.value_scroll
                    },
                    ..old(self)@
                }
            }),
            final(self).raw_json_lines == old(self).raw_json_lines,
    {
        let pl = page_len as usize;
        let max = if wrapped_rows > pl { wrapped_rows - pl } else { 0 };
        if (self.view_state.value_screen_vertical_scroll_offset as usize) > max {
            self.view_state.value_screen_vertical_scroll_offset = max as u16;
        }
    }
}


/// The find line's right part: nothing before the text was sought, then
/// whether it was found.
pub open spec fn find_result_text(find: Option<FindView>) -> Seq<char> {
    match find {
        Some(f) => match f.found {
            Some(true) => "found"@,
            Some(false) => "NOT found"@,
            None => seq![],
        },
        None => seq![],
    }
}

impl<'a> Model<'a> {
    /// The status line's left part: where the selected line came from, as
    /// `source:line number`; empty where no known line is selected.
    pub open spec fn status_left_text(&self) -> Seq<char> {
        let lines = self.raw_json_lines.lines@;
        let sources = self.raw_json_lines.sources_view();
        match self.view_state.main_window_list_state.selected {
            Some(i) => if i < lines.len() && sources.contains_key(lines[i as int].source_id) {
                source_text(sources[lines[i as int].source_id]) + seq![':'] + decimal(
                    lines[i as int].line_nr as nat,
                )
            } else {
                seq![]
            },
            None => seq![],
        }
    }

    /// Where the selected line came from, as `source:line number`.
    pub fn render_status_line_left(&self) -> (r: String)
        ensures
            r@ == self.status_left_text(),
    {
        match self.view_state.main_window_list_state.selected() {
            Some(i) => {
                if i >= self.raw_json_lines.lines.len() {
                    return String::new();
                }
                let raw_line = &self.raw_json_lines.lines[i];
                match self.raw_json_lines.source_name(raw_line.source_id) {
                    Some(source) => {
                        proof {
                            reveal_strlit(":");
                        }
                        let mut s = source.to_text();
                        s.append(":");
                        let nr = decimal_text(raw_line.line_nr);
                        s.append(nr.as_str());
                        assert(s@ =~= self.status_left_text());
                        s
                    },
                    None => String::new(),
                }
            },
            None => String::new(),
        }
    }

    /// The outcome of the last explicit action.
    pub fn render_status_line_right(&self) -> (r: String)
        ensures
            r@ == self@.last_action_result,
    {
        self.last_action_result.clone()
    }

    /// The find line's left part: how to mark the search, and the text sought;
    /// nothing where no search is open.
    pub fn render_find_task_line_left(&self) -> (r: Option<(FindIndicator, String)>)
        ensures
            match (r, self@.find) {
                (Some((ind, q)), Some(f)) => q@ == f.query && ind == match f.found {
                    None => FindIndicator::Pending,
                    Some(false) => FindIndicator::Missed,
                    Some(true) => FindIndicator::Hit,
                },
                (None, None) => true,
                _ => false,
            },
    {
        match &self.find_task {
            Some(task) => {
                let ind = match task.found {
                    None => FindIndicator::Pending,
                    Some(false) => FindIndicator::Missed,
                    Some(true) => FindIndicator::Hit,
                };
                Some((ind, task.search_string.clone()))
            },
            None => None,
        }
    }

    /// The find line's right part: `found`, `NOT found`, or nothing.
    pub fn render_find_task_line_right(&self) -> (r: String)
        ensures
            r@ == find_result_text(self@.find),
    {
        match &self.find_task {
            Some(task) => match task.found {
                Some(true) => String::from_str("found"),
                Some(false) => String::from_str("NOT found"),
                None => String::new(),
            },
            None => String::new(),
        }
    }
}

} // verus!
