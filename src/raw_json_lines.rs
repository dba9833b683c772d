//! The line store: raw text lines, each tagged with where it came from.
use rustc_hash::FxHashMap;
use vstd::prelude::*;
use vstd::string::StringExecFns;
use crate::json::{decode_line, fields_view, FieldView, JsonField, JsonLine, JsonLineView, json_line_of};
use crate::text::{
    contains_name, has_json_extension, has_json_suffix, has_zip_extension, is_json_extension,
    is_json_file_name, is_zip_extension, names_view,
};

verus! {

/// Where a line came from.
pub enum SourceName {
    /// A JSON-Lines file, by file name.
    JsonFile(String),
    /// A JSON-Lines file inside a zip archive.
    JsonInZip { zip_file: String, json_file: String },
}

/// A source name as plain text.
pub enum SourceNameView {
    JsonFile(Seq<char>),
    JsonInZip { zip_file: Seq<char>, json_file: Seq<char> },
}

impl View for SourceName {
    type V = SourceNameView;

    open spec fn view(&self) -> SourceNameView {
        match self {
            SourceName::JsonFile(f) => SourceNameView::JsonFile(f@),
            SourceName::JsonInZip { zip_file, json_file } => SourceNameView::JsonInZip {
                zip_file: zip_file@,
                json_file: json_file@,
            },
        }
    }
}

impl PartialEq for SourceName {
    fn eq(&self, other: &SourceName) -> (r: bool) {
        match (self, other) {
            (SourceName::JsonFile(a), SourceName::JsonFile(b)) => *a == *b,
            (
                SourceName::JsonInZip { zip_file: za, json_file: ja },
                SourceName::JsonInZip { zip_file: zb, json_file: jb },
            ) => *za == *zb && *ja == *jb,
            _ => false,
        }
    }
}

impl vstd::std_specs::cmp::PartialEqSpecImpl for SourceName {
    open spec fn obeys_eq_spec() -> bool {
        true
    }

    open spec fn eq_spec(&self, other: &SourceName) -> bool {
        self@ == other@
    }
}

/// How a source is named on the status line.
pub open spec fn source_text(s: SourceNameView) -> Seq<char> {
    match s {
        SourceNameView::JsonFile(f) => f,
        SourceNameView::JsonInZip { zip_file, json_file } => zip_file + seq!['/'] + json_file,
    }
}

impl SourceName {
    /// A copy of this name.
    pub fn duplicate(&self) -> (r: SourceName)
        ensures
            r@ == self@,
    {
        match self {
            SourceName::JsonFile(f) => SourceName::JsonFile(f.clone()),
            SourceName::JsonInZip { zip_file, json_file } => SourceName::JsonInZip {
                zip_file: zip_file.clone(),
                json_file: json_file.clone(),
            },
        }
    }

    /// The name as the status line shows it: the file name, or the archive's
    /// name and the entry's name joined by `/`.
    pub fn to_text(&self) -> (r: String)
        ensures
            r@ == source_text(self@),
    {
        match self {
            SourceName::JsonFile(f) => f.clone(),
            SourceName::JsonInZip { zip_file, json_file } => {
                proof {
                    reveal_strlit("/");
                }
                let mut s = zip_file.clone();
                s.append("/");
                s.append(json_file.as_str());
                assert(s@ =~= source_text(self@));
                s
            },
        }
    }
}

/// The sources seen so far, each under a number of its own.
///
/// vstd specifies `HashMap` only for hashers known to build valid hashers,
/// which `FxBuildHasher` is not; so the map stays inside this type, and the
/// functions below state what each of its operations does.
#[verifier::external_body]
pub struct SourceTable {
    map: FxHashMap<usize, SourceName>,
}

/// The numbered sources that a table holds.
pub uninterp spec fn source_table_contents(t: SourceTable) -> Map<usize, SourceNameView>;

impl SourceTable {
    /// Relies on `FxHashMap::default`: a map with no entries.
    #[verifier::external_body]
    fn new() -> (r: SourceTable)
        ensures
            source_table_contents(r).dom() =~= Set::empty(),
    {
        SourceTable { map: FxHashMap::default() }
    }

    /// Relies on `HashMap::len` of an `FxHashMap`: the number of entries.
    #[verifier::external_body]
    fn len(&self) -> (r: usize)
        ensures
            r as nat == source_table_contents(*self).dom().len(),
    {
        self.map.len()
    }

    /// Relies on `HashMap::get` of an `FxHashMap`: the entry under a key, if any.
    #[verifier::external_body]
    fn get(&self, id: usize) -> (r: Option<&SourceName>)
        ensures
            match r {
                Some(n) => source_table_contents(*self).contains_key(id) && n@
                    == source_table_contents(*self)[id],
                None => !source_table_contents(*self).contains_key(id),
            },
    {
        self.map.get(&id)
    }

    /// Relies on `HashMap::insert` of an `FxHashMap`: the entry under the key
    /// is the given one afterwards, the others stay.
    #[verifier::external_body]
    fn insert(&mut self, id: usize, name: SourceName)
        ensures
            source_table_contents(*final(self)) == source_table_contents(*old(self)).insert(
                id,
                name@,
            ),
    {
        _ = self.map.insert(id, name);
    }
}

/// One raw line of input.
pub struct RawJsonLine {
    /// The number of the line's source in the store.
    pub source_id: usize,
    /// The line's number within its source, counted from 1.
    pub line_nr: usize,
    /// The line's text, undecoded.
    pub content: String,
}

/// The line view's text of an item: `key : value`.
pub open spec fn attribute_text(f: FieldView) -> Seq<char> {
    f.key + seq![' ', ':', ' '] + f.text
}

/// The fields of a line that are named in `order`, in that order; a name
/// that the line lacks is passed over, and a name given twice shows twice.
pub open spec fn ordered_fields(fields: Seq<FieldView>, order: Seq<Seq<char>>) -> Seq<FieldView>
    decreases order.len(),
{
    if order.len() == 0 {
        seq![]
    } else {
        let rest = ordered_fields(fields, order.drop_last());
        match field_named(fields, order.last(), 0) {
            Some(f) => rest.push(f),
            None => rest,
        }
    }
}

/// The first field from position `i` on whose name is `key`.
pub open spec fn field_named(fields: Seq<FieldView>, key: Seq<char>, i: int) -> Option<FieldView>
    decreases fields.len() - i,
{
    if i < 0 || i >= fields.len() {
        None
    } else if fields[i].key == key {
        Some(fields[i])
    } else {
        field_named(fields, key, i + 1)
    }
}

/// The fields whose names are in neither list, in the line's own order.
pub open spec fn other_fields(
    fields: Seq<FieldView>,
    order: Seq<Seq<char>>,
    suppressed: Seq<Seq<char>>,
) -> Seq<FieldView>
    decreases fields.len(),
{
    if fields.len() == 0 {
        seq![]
    } else {
        let rest = other_fields(fields.drop_last(), order, suppressed);
        let f = fields.last();
        if !order.contains(f.key) && !suppressed.contains(f.key) {
            rest.push(f)
        } else {
            rest
        }
    }
}

/// All fields of a line in the order in which the field list shows them:
/// those named in `order` first, then the rest in the line's own order.
pub open spec fn details_fields(fields: Seq<FieldView>, order: Seq<Seq<char>>) -> Seq<FieldView> {
    ordered_fields(fields, order) + other_fields(fields, order, seq![])
}

/// Finds the first field named `key`.
pub fn find_field<'f>(fields: &'f Vec<JsonField>, key: &String) -> (r: Option<&'f JsonField>)
    ensures
        match r {
            Some(f) => field_named(fields_view(fields@), key@, 0) == Some(f@),
            None => field_named(fields_view(fields@), key@, 0) is None,
        },
{
    let ghost fv = fields_view(fields@);
    let mut i: usize = 0;
    while i < fields.len()
        invariant
            i <= fields@.len(),
            fv == fields_view(fields@),
            field_named(fv, key@, 0) == field_named(fv, key@, i as int),
        decreases fields@.len() - i,
    {
        if fields[i].key == *key {
            return Some(&fields[i]);
        }
        i += 1;
    }
    None
}

/// Appends the fields of `fields` that `order` names, in that order.
pub(crate) fn push_ordered_fields<'f>(
    fields: &'f Vec<JsonField>,
    order: &Vec<String>,
    out: &mut Vec<&'f JsonField>,
)
    ensures
        fields_of_refs(final(out)@) == fields_of_refs(old(out)@) + ordered_fields(
            fields_view(fields@),
            names_view(order@),
        ),
{
    let ghost start = fields_of_refs(out@);
    let mut i: usize = 0;
    while i < order.len()
        invariant
            i <= order@.len(),
            fields_of_refs(out@) == start + ordered_fields(
                fields_view(fields@),
                names_view(order@.take(i as int)),
            ),
        decreases order@.len() - i,
    {
        let ghost prev = out@;
        assert(names_view(order@.take(i + 1)).drop_last() =~= names_view(order@.take(i as int)));
        assert(names_view(order@.take(i + 1)).last() == order@[i as int]@);
        if let Some(f) = find_field(fields, &order[i]) {
            out.push(f);
            assert(fields_of_refs(out@) =~= fields_of_refs(prev).push(f@));
        }
        i += 1;
    }
    assert(order@.take(order@.len() as int) =~= order@);
}

/// Appends the fields of `fields` that neither list names.
pub(crate) fn push_other_fields<'f>(
    fields: &'f Vec<JsonField>,
    order: &Vec<String>,
    suppressed: &Vec<String>,
    out: &mut Vec<&'f JsonField>,
)
    ensures
        fields_of_refs(final(out)@) == fields_of_refs(old(out)@) + other_fields(
            fields_view(fields@),
            names_view(order@),
            names_view(suppressed@),
        ),
{
    let ghost start = fields_of_refs(out@);
    let mut i: usize = 0;
    while i < fields.len()
        invariant
            i <= fields@.len(),
            fields_of_refs(out@) == start + other_fields(
                fields_view(fields@.take(i as int)),
                names_view(order@),
                names_view(suppressed@),
            ),
        decreases fields@.len() - i,
    {
        let ghost prev = out@;
        assert(fields_view(fields@.take(i + 1)).drop_last() =~= fields_view(fields@.take(i as int)));
        assert(fields_view(fields@.take(i + 1)).last() == fields@[i as int]@);
        let f = &fields[i];
        if !contains_name(order, &f.key) && !contains_name(suppressed, &f.key) {
            out.push(f);
            assert(fields_of_refs(out@) =~= fields_of_refs(prev).push(f@));
        }
        i += 1;
    }
    assert(fields@.take(fields@.len() as int) =~= fields@);
}

/// The field list's items: `key : value` for each field.
pub open spec fn attributes_of(fields: Seq<FieldView>) -> Seq<Seq<char>> {
    fields.map_values(|f: FieldView| attribute_text(f))
}

/// The names of a sequence of fields.
pub open spec fn keys_of(fields: Seq<FieldView>) -> Seq<Seq<char>> {
    fields.map_values(|f: FieldView| f.key)
}

/// The field list of a decoded line: the items `key : value` and the
/// names, both in the order of `details_fields`.
pub fn details_fields_as_list(fields: &Vec<JsonField>, key_order: &Vec<String>) -> (r: (
    Vec<String>,
    Vec<String>,
))
    ensures
        names_view(r.0@) == attributes_of(details_fields(fields_view(fields@), names_view(key_order@))),
        names_view(r.1@) == keys_of(details_fields(fields_view(fields@), names_view(key_order@))),
{
    let mut refs: Vec<&JsonField> = Vec::new();
    push_ordered_fields(fields, key_order, &mut refs);
    let no_names: Vec<String> = Vec::new();
    push_other_fields(fields, key_order, &no_names, &mut refs);
    assert(names_view(no_names@) =~= seq![]);
    assert(fields_of_refs(refs@) =~= details_fields(fields_view(fields@), names_view(key_order@)));
    let ghost d = fields_of_refs(refs@);
    let mut items: Vec<String> = Vec::new();
    let mut keys: Vec<String> = Vec::new();
    let mut i: usize = 0;
    while i < refs.len()
        invariant
            i <= refs@.len(),
            d == fields_of_refs(refs@),
            names_view(items@) =~= attributes_of(d).take(i as int),
            names_view(keys@) =~= keys_of(d).take(i as int),
        decreases refs@.len() - i,
    {
        let f = refs[i];
        let ghost (pi, pk) = (items@, keys@);
        assert(d[i as int] == f@);
        items.push(RawJsonLine::render_attribute(f));
        keys.push(f.key.clone());
        assert(names_view(items@) =~= names_view(pi).push(attribute_text(d[i as int])));
        assert(names_view(keys@) =~= names_view(pk).push(d[i as int].key));
        assert(attributes_of(d).take(i + 1) =~= attributes_of(d).take(i as int).push(
            attribute_text(d[i as int]),
        ));
        assert(keys_of(d).take(i + 1) =~= keys_of(d).take(i as int).push(d[i as int].key));
        i += 1;
    }
    assert(attributes_of(d).take(i as int) =~= attributes_of(d));
    assert(keys_of(d).take(i as int) =~= keys_of(d));
    (items, keys)
}

impl RawJsonLine {
    /// The field list of this line: the items `key : value` and the field
    /// names, fields named in `key_order` first. A line that is not a JSON
    /// object has no fields.
    pub fn produce_rendered_fields_as_list(&self, key_order: &Vec<String>) -> (r: (
        Vec<String>,
        Vec<String>,
    ))
        ensures
            match json_line_of(self.content@) {
                JsonLineView::Object(fs) => {
                    &&& names_view(r.0@) == attributes_of(details_fields(fs, names_view(key_order@)))
                    &&& names_view(r.1@) == keys_of(details_fields(fs, names_view(key_order@)))
                },
                _ => r.0@.len() == 0 && r.1@.len() == 0,
            },
    {
        match decode_line(self.content.as_str()) {
            JsonLine::Object(fields) => details_fields_as_list(&fields, key_order),
            _ => (Vec::new(), Vec::new()),
        }
    }

    /// One item of the field list: `key : value`.
    pub fn render_attribute(field: &JsonField) -> (r: String)
        ensures
            r@ == attribute_text(field@),
    {
        proof {
            reveal_strlit(" : ");
        }
        let mut s = field.key.clone();
        s.append(" : ");
        s.append(field.text.as_str());
        assert(s@ =~= attribute_text(field@));
        s
    }
}

/// All raw lines, in the order in which they were read, and their sources.
pub struct RawJsonLines {
    /// The sources of the lines, by number.
    pub sources: SourceTable,
    /// The lines.
    pub lines: Vec<RawJsonLine>,
}

impl Default for RawJsonLines {
    fn default() -> (r: RawJsonLines)
        ensures
            r.wf(),
            r.lines@.len() == 0,
            r.sources_view().dom().len() == 0,
    {
        RawJsonLines { sources: SourceTable::new(), lines: Vec::new() }
    }
}

impl RawJsonLines {
    /// The sources, by number.
    pub open spec fn sources_view(&self) -> Map<usize, SourceNameView> {
        source_table_contents(self.sources)
    }

    /// The sources are numbered 0, 1, ... without gaps, no source has two
    /// numbers, and the source of every line is known.
    pub open spec fn wf(&self) -> bool {
        let m = self.sources_view();
        &&& m.dom().finite()
        &&& forall|id: usize| #[trigger] m.contains_key(id) <==> (id as nat) < m.dom().len()
        &&& forall|a: usize, b: usize|
            #[trigger] m.contains_key(a) && #[trigger] m.contains_key(b) && a != b ==> m[a] != m[b]
        &&& forall|i: int|
            0 <= i < self.lines@.len() ==> m.contains_key(#[trigger] self.lines@[i].source_id)
    }

    /// Whether a source is among the known ones.
    pub open spec fn has_source(&self, name: SourceNameView) -> bool {
        exists|id: usize| #[trigger] self.sources_view().contains_key(id) && self.sources_view()[id] == name
    }

    /// Whether the store holds no line.
    pub fn is_empty(&self) -> (r: bool)
        ensures
            r == (self.lines@.len() == 0),
    {
        self.lines.len() == 0
    }

    /// Appends a line from the given source, numbering the source if it is new.
    pub fn push(&mut self, source_name: SourceName, line_nr: usize, content: String)
        requires
            old(self).wf(),
        ensures
            final(self).wf(),
            final(self).lines@.len() == old(self).lines@.len() + 1,
            final(self).lines@.take(old(self).lines@.len() as int) == old(self).lines@,
            final(self).lines@.last().line_nr == line_nr,
            final(self).lines@.last().content == content,
            final(self).sources_view()[final(self).lines@.last().source_id] == source_name@,
            forall|id: usize|
                #[trigger] old(self).sources_view().contains_key(id) ==> final(self).sources_view().contains_key(id)
                    && final(self).sources_view()[id] == old(self).sources_view()[id],
            old(self).has_source(source_name@) ==> final(self).sources_view() == old(
                self,
            ).sources_view(),
            !old(self).has_source(source_name@) ==> final(self).sources_view() == old(
                self,
            ).sources_view().insert(old(self).sources_view().dom().len() as usize, source_name@),
    {
        let ghost old_lines = self.lines@;
        let source_id = self.source_id(source_name);
        self.lines.push(RawJsonLine { source_id, line_nr, content });
        assert(self.lines@.take(old_lines.len() as int) =~= old_lines);
        assert forall|i: int| 0 <= i < self.lines@.len() implies self.sources_view().contains_key(
            #[trigger] self.lines@[i].source_id,
        ) by {
            if i < old_lines.len() {
                assert(self.lines@[i] == old_lines[i]);
            }
        }
    }

    /// Appends lines from one source, numbered from 1.
    fn push_lines(&mut self, source: &SourceName, lines: Vec<String>)
        requires
            old(self).wf(),
        ensures
            final(self).wf(),
            final(self).lines@.len() == old(self).lines@.len() + lines@.len(),
            final(self).lines@.take(old(self).lines@.len() as int) == old(self).lines@,
            forall|id: usize|
                #[trigger] old(self).sources_view().contains_key(id) ==> final(self).sources_view().contains_key(id)
                    && final(self).sources_view()[id] == old(self).sources_view()[id],
            forall|j: int|
                0 <= j < lines@.len() ==> {
                    let l = #[trigger] final(self).lines@[old(self).lines@.len() + j];
                    &&& l.content == lines@[j]
                    &&& l.line_nr == j + 1
                    &&& final(self).sources_view().contains_key(l.source_id)
                    &&& final(self).sources_view()[l.source_id] == source@
                },
    {
        let ghost old_lines = self.lines@;
        let ghost old_map = self.sources_view();
        let ghost start = old_lines.len() as int;
        let mut i: usize = 0;
        while i < lines.len()
            invariant
                self.wf(),
                i <= lines@.len(),
                self.lines@.len() == start + i,
                old_lines.len() == start,
                forall|k: int| 0 <= k < start ==> #[trigger] self.lines@[k] == old_lines[k],
                forall|id: usize|
                    #[trigger] old_map.contains_key(id) ==> self.sources_view().contains_key(id)
                        && self.sources_view()[id] == old_map[id],
                forall|j: int|
                    0 <= j < i ==> {
                        let l = #[trigger] self.lines@[start + j];
                        &&& l.content == lines@[j]
                        &&& l.line_nr == j + 1
                        &&& self.sources_view().contains_key(l.source_id)
                        &&& self.sources_view()[l.source_id] == source@
                    },
            decreases lines@.len() - i,
        {
            let ghost prev_lines = self.lines@;
            let ghost prev_map = self.sources_view();
            let name = source.duplicate();
            let content = lines[i].clone();
            self.push(name, i + 1, content);
            proof {
                assert(self.lines@[start + i] == self.lines@.last());
                assert forall|k: int| 0 <= k < start implies #[trigger] self.lines@[k] == old_lines[k] by {
                    assert(self.lines@.take(prev_lines.len() as int)[k] == self.lines@[k]);
                    assert(prev_lines[k] == old_lines[k]);
                }
                assert forall|id: usize| #[trigger] old_map.contains_key(id) implies self.sources_view().contains_key(id)
                    && self.sources_view()[id] == old_map[id] by {
                    assert(prev_map.contains_key(id));
                }
                assert forall|j: int| 0 <= j < i + 1 implies {
                    let l = #[trigger] self.lines@[start + j];
                    &&& l.content == lines@[j]
                    &&& l.line_nr == j + 1
                    &&& self.sources_view().contains_key(l.source_id)
                    &&& self.sources_view()[l.source_id] == source@
                } by {
                    if j < i {
                        assert(self.lines@.take(prev_lines.len() as int)[start + j] == self.lines@[start
                            + j]);
                        assert(prev_lines[start + j] == self.lines@[start + j]);
                        assert(prev_map.contains_key(prev_lines[start + j].source_id));
                    }
                }
            }
            i += 1;
        }
        assert(self.lines@.take(start) =~= old_lines);
    }

    /// Appends the lines of a JSON-Lines file, numbered from 1 and tagged
    /// with the file's name.
    pub fn push_json_file(&mut self, file_name: &String, lines: Vec<String>)
        requires
            old(self).wf(),
        ensures
            final(self).wf(),
            final(self).lines@.len() == old(self).lines@.len() + lines@.len(),
            final(self).lines@.take(old(self).lines@.len() as int) == old(self).lines@,
            forall|id: usize|
                #[trigger] old(self).sources_view().contains_key(id) ==> final(self).sources_view().contains_key(id)
                    && final(self).sources_view()[id] == old(self).sources_view()[id],
            forall|j: int|
                0 <= j < lines@.len() ==> {
                    let l = #[trigger] final(self).lines@[old(self).lines@.len() + j];
                    &&& l.content == lines@[j]
                    &&& l.line_nr == j + 1
                    &&& final(self).sources_view().contains_key(l.source_id)
                    &&& final(self).sources_view()[l.source_id] == SourceNameView::JsonFile(file_name@)
                },
    {
        let source = SourceName::JsonFile(file_name.clone());
        self.push_lines(&source, lines);
    }

    /// Appends the lines of one entry of a zip archive, numbered from 1 and
    /// tagged with the archive's and the entry's names, where the entry is a
    /// file whose name ends in `.json`; any other entry adds nothing. The
    /// sources already known keep their numbers and names. Returns whether
    /// the entry was taken.
    pub fn push_zip_entry(
        &mut self,
        zip_file: &String,
        entry_name: &String,
        is_file: bool,
        lines: Vec<String>,
    ) -> (r: bool)
        requires
            old(self).wf(),
        ensures
            final(self).wf(),
            r == (is_file && has_json_suffix(entry_name@)),
            !r ==> final(self).lines@ == old(self).lines@,
            !r ==> final(self).sources_view() == old(self).sources_view(),
            forall|id: usize|
                #[trigger] old(self).sources_view().contains_key(id) ==> final(self).sources_view().contains_key(id)
                    && final(self).sources_view()[id] == old(self).sources_view()[id],
            r ==> final(self).lines@.len() == old(self).lines@.len() + lines@.len(),
            r ==> final(self).lines@.take(old(self).lines@.len() as int) == old(self).lines@,
            r ==> forall|j: int|
                0 <= j < lines@.len() ==> {
                    let l = #[trigger] final(self).lines@[old(self).lines@.len() + j];
                    &&& l.content == lines@[j]
                    &&& l.line_nr == j + 1
                    &&& final(self).sources_view().contains_key(l.source_id)
                    &&& final(self).sources_view()[l.source_id] == (SourceNameView::JsonInZip {
                        zip_file: zip_file@,
                        json_file: entry_name@,
                    })
                },
    {
        if !is_json_zip_entry(is_file, entry_name.as_str()) {
            return false;
        }
        let source = SourceName::JsonInZip { zip_file: zip_file.clone(), json_file: entry_name.clone() };
        self.push_lines(&source, lines);
        true
    }

    /// The source with the given number, if there is one.
    pub fn source_name(&self, source_id: usize) -> (r: Option<&SourceName>)
        ensures
            match r {
                Some(n) => self.sources_view().contains_key(source_id) && n@ == self.sources_view()[source_id],
                None => !self.sources_view().contains_key(source_id),
            },
    {
        self.sources.get(source_id)
    }

    /// The number of a source, given a new one if it is not known yet.
    fn source_id(&mut self, source_name: SourceName) -> (r: usize)
        requires
            old(self).wf(),
        ensures
            final(self).lines == old(self).lines,
            final(self).sources_view().contains_key(r),
            final(self).sources_view()[r] == source_name@,
            final(self).wf(),
            forall|id: usize|
                #[trigger] old(self).sources_view().contains_key(id) ==> final(self).sources_view().contains_key(id)
                    && final(self).sources_view()[id] == old(self).sources_view()[id],
            old(self).has_source(source_name@) ==> final(self).sources_view() == old(
                self,
            ).sources_view(),
            !old(self).has_source(source_name@) ==> final(self).sources_view() == old(
                self,
            ).sources_view().insert(old(self).sources_view().dom().len() as usize, source_name@),
    {
        let n = self.sources.len();
        let ghost m = self.sources_view();
        let mut id: usize = 0;
        while id < n
            invariant
                id <= n,
                n as nat == m.dom().len(),
                m == self.sources_view(),
                self.wf(),
                forall|j: usize| j < id ==> #[trigger] m.contains_key(j) && m[j] != source_name@,
            decreases n - id,
        {
            assert(m.contains_key(id));
            match self.sources.get(id) {
                Some(known) => {
                    let same = *known == source_name;
                    if same {
                        return id;
                    }
                    assert(m[id] != source_name@);
                },
                None => {},
            }
            id += 1;
        }
        assert(!self.has_source(source_name@));
        self.sources.insert(n, source_name);
        let ghost m2 = self.sources_view();
        assert(m2.dom() =~= m.dom().insert(n));
        assert(!m.dom().contains(n));
        assert forall|k: usize| #[trigger] m2.contains_key(k) <==> (k as nat) < m2.dom().len() by {
            assert(m.contains_key(k) <==> (k as nat) < m.dom().len());
        }
        assert forall|k: usize| #[trigger] m.contains_key(k) implies m2.contains_key(k) && m2[k] == m[k] by {
            assert(k != n);
        }
        n
    }
}

/// How an input file is read.
#[derive(Clone, Copy, PartialEq, Eq, Structural, Debug)]
pub enum InputKind {
    /// A JSON-Lines file.
    JsonLines,
    /// A zip archive of JSON-Lines files.
    ZipArchive,
    /// Neither: the file is passed over.
    Unknown,
}

/// How a file is read, by its name's extension in any letter case; a name
/// that is all extension, such as `.json`, has none.
pub fn input_kind(file_name: &str) -> (r: InputKind)
    ensures
        r == if has_json_extension(file_name@) {
            InputKind::JsonLines
        } else if has_zip_extension(file_name@) {
            InputKind::ZipArchive
        } else {
            InputKind::Unknown
        },
{
    if is_json_extension(file_name) {
        InputKind::JsonLines
    } else if is_zip_extension(file_name) {
        InputKind::ZipArchive
    } else {
        InputKind::Unknown
    }
}

/// Whether an entry of a zip archive is read: a file whose name ends in
/// `.json`, in any letter case.
pub fn is_json_zip_entry(is_file: bool, name: &str) -> (r: bool)
    ensures
        r == (is_file && has_json_suffix(name@)),
{
    is_file && is_json_file_name(name)
}

/// The fields that a sequence of references points to.
pub open spec fn fields_of_refs(refs: Seq<&JsonField>) -> Seq<FieldView> {
    refs.map_values(|f: &JsonField| f@)
}

} // verus!
