//! Per-field validation messages: grouping `(field, message)` pairs by field
//! and collecting them while a request is checked.

use vstd::prelude::*;

use crate::error::ServiceError;
use crate::text::{debug_list, debug_quoted, join, lemma_join_push, push_bracket, push_debug_list, debug_quote};

verus! {

/// A grouped view: each entry is a field with its messages, in order.
pub type FieldGroups = Seq<(Seq<char>, Seq<Seq<char>>)>;

/// A flat view: `(field, message)` pairs in the order they were reported.
pub type FieldPairs = Seq<(Seq<char>, Seq<char>)>;

/// Position of the first entry for `f`, or -1 if there is none.
pub open spec fn field_index(m: FieldGroups, f: Seq<char>) -> int
    decreases m.len(),
{
    if m.len() == 0 {
        -1
    } else {
        let i = field_index(m.drop_last(), f);
        if i >= 0 {
            i
        } else if m.last().0 == f {
            m.len() - 1
        } else {
            -1
        }
    }
}

/// No field has two entries.
pub open spec fn fields_distinct(m: FieldGroups) -> bool {
    forall|i: int, j: int| 0 <= i < j < m.len() ==> m[i].0 != m[j].0
}

/// Every entry holds at least one message.
pub open spec fn groups_nonempty(m: FieldGroups) -> bool {
    forall|i: int| 0 <= i < m.len() ==> #[trigger] m[i].1.len() > 0
}

/// The messages recorded for `f`; empty when `f` has no entry.
pub open spec fn lookup(m: FieldGroups, f: Seq<char>) -> Seq<Seq<char>> {
    let i = field_index(m, f);
    if i >= 0 {
        m[i].1
    } else {
        Seq::empty()
    }
}

/// `m` with `msg` appended to the messages of `f`, adding an entry for `f`
/// at the end when it has none.
pub open spec fn with_message(m: FieldGroups, f: Seq<char>, msg: Seq<char>) -> FieldGroups {
    let i = field_index(m, f);
    if i >= 0 {
        m.update(i, (f, m[i].1.push(msg)))
    } else {
        m.push((f, seq![msg]))
    }
}

/// The pairs grouped by field: fields in order of first appearance, each
/// with its messages in the order they were reported.
pub open spec fn group_by_field(s: FieldPairs) -> FieldGroups
    decreases s.len(),
{
    if s.len() == 0 {
        Seq::empty()
    } else {
        with_message(group_by_field(s.drop_last()), s.last().0, s.last().1)
    }
}

/// The messages of the pairs whose field is `f`, in order.
pub open spec fn messages_of(s: FieldPairs, f: Seq<char>) -> Seq<Seq<char>>
    decreases s.len(),
{
    if s.len() == 0 {
        Seq::empty()
    } else if s.last().0 == f {
        messages_of(s.drop_last(), f).push(s.last().1)
    } else {
        messages_of(s.drop_last(), f)
    }
}

/// The views of a list of owned pairs.
pub open spec fn pairs_view(v: Seq<(String, String)>) -> FieldPairs {
    v.map_values(|p: (String, String)| (p.0@, p.1@))
}

/// The views of a list of borrowed pairs.
pub open spec fn str_pairs_view(v: Seq<(&str, &str)>) -> FieldPairs {
    v.map_values(|p: (&str, &str)| (p.0@, p.1@))
}

/// The views of grouped entries.
pub open spec fn groups_view(v: Seq<(String, Vec<String>)>) -> FieldGroups {
    v.map_values(|e: (String, Vec<String>)| (e.0@, e.1@.map_values(|x: String| x@)))
}

/// `{:?}` of a map from fields to message lists: `{"a": ["x"], "b": ["y"]}`.
pub open spec fn debug_groups(m: FieldGroups) -> Seq<char> {
    seq!['{'] + join(
        m.map_values(|e: (Seq<char>, Seq<Seq<char>>)| debug_quoted(e.0) + ": "@ + debug_list(e.1)),
        ", "@,
    ) + seq!['}']
}

/// What `field_index` finds: the first entry for `f`, or none at all.
pub proof fn lemma_field_index(m: FieldGroups, f: Seq<char>)
    ensures
        -1 <= field_index(m, f) < m.len(),
        field_index(m, f) >= 0 ==> m[field_index(m, f)].0 == f,
        field_index(m, f) >= 0 ==> forall|k: int| 0 <= k < field_index(m, f) ==> m[k].0 != f,
        field_index(m, f) == -1 ==> forall|k: int| 0 <= k < m.len() ==> m[k].0 != f,
    decreases m.len(),
{
    if m.len() > 0 {
        lemma_field_index(m.drop_last(), f);
        assert forall|k: int| 0 <= k < m.len() - 1 implies m[k] == m.drop_last()[k] by {}
    }
}

/// With distinct fields, any entry for `f` is the one `field_index` finds.
pub proof fn lemma_field_index_unique(m: FieldGroups, f: Seq<char>, k: int)
    requires
        fields_distinct(m),
        0 <= k < m.len(),
        m[k].0 == f,
    ensures
        field_index(m, f) == k,
{
    lemma_field_index(m, f);
}

/// Adding a message for `f` leaves what is recorded for another field as it was.
proof fn lemma_with_message_other(m: FieldGroups, f: Seq<char>, msg: Seq<char>, g: Seq<char>)
    requires
        fields_distinct(m),
        g != f,
    ensures
        lookup(with_message(m, f, msg), g) == lookup(m, g),
        (field_index(with_message(m, f, msg), g) >= 0) <==> (field_index(m, g) >= 0),
{
    let r = with_message(m, f, msg);
    lemma_field_index(m, f);
    lemma_field_index(m, g);
    lemma_field_index(r, g);
    let i = field_index(m, f);
    if field_index(m, g) >= 0 {
        let j = field_index(m, g);
        assert(r[j].0 == g);
        if i >= 0 {
            assert(fields_distinct(r));
        } else {
            assert forall|a: int, b: int| 0 <= a < b < r.len() implies r[a].0 != r[b].0 by {
                if b == m.len() {
                    assert(m[a].0 != f);
                }
            }
        }
        lemma_field_index_unique(r, g, j);
    } else if field_index(r, g) >= 0 {
        let j = field_index(r, g);
        if i < 0 {
            assert(j != m.len());
        }
        assert(m[j].0 == g);
    }
}

/// Adding a message keeps fields distinct and entries non-empty, and changes
/// only what is recorded for `f`.
pub proof fn lemma_with_message(m: FieldGroups, f: Seq<char>, msg: Seq<char>)
    requires
        fields_distinct(m),
        groups_nonempty(m),
    ensures
        fields_distinct(with_message(m, f, msg)),
        groups_nonempty(with_message(m, f, msg)),
        lookup(with_message(m, f, msg), f) == lookup(m, f).push(msg),
        forall|g: Seq<char>| g != f ==> lookup(with_message(m, f, msg), g) == lookup(m, g),
        forall|g: Seq<char>|
            #![trigger field_index(with_message(m, f, msg), g)]
            (field_index(with_message(m, f, msg), g) >= 0) <==> (field_index(m, g) >= 0 || g == f),
{
    let r = with_message(m, f, msg);
    lemma_field_index(m, f);
    let i = field_index(m, f);
    if i >= 0 {
        assert(r[i].0 == f);
        lemma_field_index_unique(r, f, i);
    } else {
        assert forall|a: int, b: int| 0 <= a < b < r.len() implies r[a].0 != r[b].0 by {
            if b == m.len() {
                assert(m[a].0 != f);
            }
        }
        assert(r[m.len() as int].0 == f);
        lemma_field_index_unique(r, f, m.len() as int);
    }
    assert forall|g: Seq<char>| g != f implies lookup(r, g) == lookup(m, g) by {
        lemma_with_message_other(m, f, msg, g);
    }
    assert forall|g: Seq<char>|
        #![trigger field_index(with_message(m, f, msg), g)]
        (field_index(r, g) >= 0) <==> (field_index(m, g) >= 0 || g == f) by {
        if g != f {
            lemma_with_message_other(m, f, msg, g);
        }
    }
}

/// Grouping loses nothing and invents nothing: each field's entry holds
/// exactly the messages reported for that field, in the order they were
/// reported; a field has an entry exactly when some pair names it; no field
/// appears twice and no entry is empty.
pub proof fn lemma_group_by_field(s: FieldPairs)
    ensures
        fields_distinct(group_by_field(s)),
        groups_nonempty(group_by_field(s)),
        forall|f: Seq<char>| #[trigger] lookup(group_by_field(s), f) == messages_of(s, f),
        forall|f: Seq<char>|
            (#[trigger] field_index(group_by_field(s), f) >= 0) <==> messages_of(s, f).len() > 0,
    decreases s.len(),
{
    if s.len() == 0 {
        assert forall|f: Seq<char>| #[trigger] lookup(group_by_field(s), f) == messages_of(s, f) by {}
    } else {
        let prev = s.drop_last();
        lemma_group_by_field(prev);
        let (f0, msg) = s.last();
        lemma_with_message(group_by_field(prev), f0, msg);
        assert forall|f: Seq<char>| #[trigger] lookup(group_by_field(s), f) == messages_of(s, f) by {
            assert(lookup(group_by_field(prev), f) == messages_of(prev, f));
        }
        assert forall|f: Seq<char>|
            (#[trigger] field_index(group_by_field(s), f) >= 0) <==> messages_of(s, f).len() > 0 by {
            assert(lookup(group_by_field(prev), f) == messages_of(prev, f));
            assert((field_index(group_by_field(prev), f) >= 0) <==> messages_of(prev, f).len() > 0);
        }
    }
}

/// Validation messages grouped by field, fields in order of first report.
/// Entries are kept in a vector, searched by field name, with the invariant
/// that no field appears twice.
#[derive(Debug)]
pub struct ValidationErrorMap {
    entries: Vec<(String, Vec<String>)>,
}

impl View for ValidationErrorMap {
    type V = FieldGroups;

    closed spec fn view(&self) -> FieldGroups {
        groups_view(self.entries@)
    }
}

impl ValidationErrorMap {
    #[verifier::type_invariant]
    spec fn well_formed(self) -> bool {
        &&& fields_distinct(groups_view(self.entries@))
        &&& groups_nonempty(groups_view(self.entries@))
    }

    /// A map with no entries.
    pub fn new() -> (r: Self)
        ensures
            r@ == Seq::<(Seq<char>, Seq<Seq<char>>)>::empty(),
    {
        let r = ValidationErrorMap { entries: Vec::new() };
        assert(r@ =~= Seq::<(Seq<char>, Seq<Seq<char>>)>::empty());
        r
    }

    /// Number of fields with messages.
    pub fn len(&self) -> (r: usize)
        ensures
            r == self@.len(),
    {
        self.entries.len()
    }

    /// Whether no field has a message.
    pub fn is_empty(&self) -> (r: bool)
        ensures
            r == (self@.len() == 0),
    {
        self.entries.len() == 0
    }

    /// Position of the entry for `field`, if any.
    fn find(&self, field: &String) -> (r: Option<usize>)
        ensures
            match r {
                Some(i) => i == field_index(self@, field@) && i < self.entries@.len(),
                None => field_index(self@, field@) == -1,
            },
    {
        proof {
            use_type_invariant(self);
            lemma_field_index(self@, field@);
        }
        let mut i: usize = 0;
        while i < self.entries.len()
            invariant
                i <= self.entries.len(),
                self@ == groups_view(self.entries@),
                fields_distinct(self@),
                forall|k: int| 0 <= k < i ==> self@[k].0 != field@,
            decreases self.entries.len() - i,
        {
            if self.entries[i].0 == *field {
                assert(self@[i as int].0 == field@);
                proof {
                    lemma_field_index_unique(self@, field@, i as int);
                }
                return Some(i);
            }
            i = i + 1;
        }
        None
    }

    /// Records `message` for `field`, after the messages already recorded
    /// for it; a field seen for the first time gets a new last entry.
    pub fn add_message(&mut self, field: String, message: String)
        ensures
            final(self)@ == with_message(old(self)@, field@, message@),
    {
        proof {
            use_type_invariant(&*self);
            lemma_with_message(self@, field@, message@);
            lemma_field_index(self@, field@);
        }
        let ghost before = self@;
        let found = self.find(&field);
        let mut entries: Vec<(String, Vec<String>)> = Vec::new();
        std::mem::swap(&mut entries, &mut self.entries);
        assert(groups_view(entries@) == before);
        match found {
            Some(i) => {
                let ghost old_entries = entries@;
                entries[i].1.push(message);
                assert(groups_view(entries@) =~= with_message(before, field@, message@)) by {
                    let target = with_message(before, field@, message@);
                    assert forall|k: int| 0 <= k < entries@.len() implies
                        #[trigger] groups_view(entries@)[k] == target[k] by {
                        if k == i {
                            assert(entries@[k].1@ =~= old_entries[k].1@.push(message));
                            assert(entries@[k].1@.map_values(|x: String| x@)
                                =~= before[k].1.push(message@));
                        } else {
                            assert(entries@[k] == old_entries[k]);
                        }
                    }
                }
            }
            None => {
                let mut msgs: Vec<String> = Vec::new();
                msgs.push(message);
                entries.push((field, msgs));
                assert(groups_view(entries@) =~= with_message(before, field@, message@)) by {
                    let last = entries@.len() - 1;
                    assert(entries@[last].1@.map_values(|x: String| x@) =~= seq![message@]);
                }
            }
        }
        self.entries = entries;
    }

    /// The messages recorded for `field`, if it has an entry.
    pub fn get(&self, field: &str) -> (r: Option<&Vec<String>>)
        ensures
            match r {
                Some(v) => field_index(self@, field@) >= 0 && v@.map_values(|x: String| x@)
                    == lookup(self@, field@),
                None => field_index(self@, field@) == -1,
            },
    {
        let key = field.to_owned();
        match self.find(&key) {
            Some(i) => Some(&self.entries[i].1),
            None => None,
        }
    }

    /// The fields and their messages, in order of first report.
    pub fn entries(&self) -> (r: &[(String, Vec<String>)])
        ensures
            groups_view(r@) == self@,
            fields_distinct(self@),
            groups_nonempty(self@),
    {
        proof {
            use_type_invariant(self);
        }
        self.entries.as_slice()
    }

    /// `{:?}` of the map: `{"field": ["message", ...], ...}`.
    pub fn to_debug_string(&self) -> (r: String)
        ensures
            r@ == debug_groups(self@),
    {
        let mut out = String::new();
        self.push_debug(&mut out);
        assert(out@ =~= debug_groups(self@));
        out
    }

    /// Appends `{:?}` of the map to `out`.
    pub fn push_debug(&self, out: &mut String)
        ensures
            final(out)@ == old(out)@ + debug_groups(self@),
    {
        let ghost start = out@;
        let ghost items = self@.map_values(
            |e: (Seq<char>, Seq<Seq<char>>)| debug_quoted(e.0) + ": "@ + debug_list(e.1),
        );
        push_bracket(out, '{');
        let mut i: usize = 0;
        while i < self.entries.len()
            invariant
                i <= self.entries.len(),
                self@ == groups_view(self.entries@),
                items == self@.map_values(
                    |e: (Seq<char>, Seq<Seq<char>>)| debug_quoted(e.0) + ": "@ + debug_list(e.1),
                ),
                out@ == start + seq!['{'] + join(items.take(i as int), ", "@),
            decreases self.entries.len() - i,
        {
            proof {
                lemma_join_push(items.take(i as int), ", "@, items[i as int]);
                assert(items.take(i as int).push(items[i as int]) =~= items.take(i + 1));
            }
            let ghost mid = out@;
            if i > 0 {
                out.append(", ");
            }
            let ghost sep = out@;
            let key = debug_quote(self.entries[i].0.as_str());
            out.append(key.as_str());
            out.append(": ");
            push_debug_list(out, &self.entries[i].1);
            assert(out@ =~= sep + items[i as int]);
            i = i + 1;
        }
        assert(items.take(i as int) =~= items);
        push_bracket(out, '}');
        assert(out@ =~= start + debug_groups(self@));
    }
}


/// Groups `(field, message)` pairs into a validation error: one entry per
/// field, in order of first appearance, holding that field's messages in the
/// order they were given.
pub fn validation_errors_from_fields(errors: Vec<(String, String)>) -> (r: ServiceError)
    ensures
        r matches ServiceError::ValidationErrors(m) && m@ == group_by_field(pairs_view(errors@)),
{
    let ghost s = pairs_view(errors@);
    let mut map = ValidationErrorMap::new();
    let mut i: usize = 0;
    while i < errors.len()
        invariant
            i <= errors.len(),
            s == pairs_view(errors@),
            map@ == group_by_field(s.take(i as int)),
        decreases errors.len() - i,
    {
        let field = errors[i].0.clone();
        let message = errors[i].1.clone();
        map.add_message(field, message);
        assert(s.take(i + 1).drop_last() =~= s.take(i as int));
        i = i + 1;
    }
    assert(s.take(i as int) =~= s);
    ServiceError::ValidationErrors(map)
}

/// Same as [`validation_errors_from_fields`], for borrowed pairs.
pub fn validation_from_fields(errors: Vec<(&str, &str)>) -> (r: ServiceError)
    ensures
        r matches ServiceError::ValidationErrors(m) && m@ == group_by_field(str_pairs_view(errors@)),
{
    let mut converted: Vec<(String, String)> = Vec::new();
    let mut i: usize = 0;
    while i < errors.len()
        invariant
            i <= errors.len(),
            pairs_view(converted@) =~= str_pairs_view(errors@).take(i as int),
        decreases errors.len() - i,
    {
        let pair = errors[i];
        let field = pair.0.to_owned();
        let message = pair.1.to_owned();
        let ghost prev = converted@;
        converted.push((field, message));
        proof {
            assert(converted@ == prev.push((field, message)));
            assert(pairs_view(converted@) =~= pairs_view(prev).push((field@, message@)));
            assert(str_pairs_view(errors@).take(i + 1) =~= str_pairs_view(errors@).take(i as int).push(
                (errors@[i as int].0@, errors@[i as int].1@),
            ));
        }
        i = i + 1;
    }
    assert(str_pairs_view(errors@).take(i as int) =~= str_pairs_view(errors@));
    validation_errors_from_fields(converted)
}

/// The pairs a validator holds after `add_if` with each `(condition, field,
/// message)` of `ops` in turn, starting from `start`; an `add` is an `add_if`
/// whose condition holds.
pub open spec fn after_add_ifs(start: FieldPairs, ops: Seq<(bool, Seq<char>, Seq<char>)>) -> FieldPairs
    decreases ops.len(),
{
    if ops.len() == 0 {
        start
    } else {
        let prev = after_add_ifs(start, ops.drop_last());
        let op = ops.last();
        if op.0 {
            prev.push((op.1, op.2))
        } else {
            prev
        }
    }
}

/// The number of operations of `ops` whose condition holds.
pub open spec fn count_added(ops: Seq<(bool, Seq<char>, Seq<char>)>) -> nat
    decreases ops.len(),
{
    if ops.len() == 0 {
        0
    } else {
        count_added(ops.drop_last()) + if ops.last().0 { 1nat } else { 0nat }
    }
}

/// A validator counts what was added: starting from a new validator, after
/// `add` and `add_if` calls its length is the number of messages actually
/// added (those whose condition held), and its last pair is the last one added.
pub proof fn lemma_validator_counts(ops: Seq<(bool, Seq<char>, Seq<char>)>)
    ensures
        after_add_ifs(Seq::empty(), ops).len() == count_added(ops),
        ops.len() > 0 && ops.last().0 ==> after_add_ifs(Seq::empty(), ops).last()
            == (ops.last().1, ops.last().2),
    decreases ops.len(),
{
    if ops.len() > 0 {
        lemma_validator_counts(ops.drop_last());
    }
}

/// Collects validation errors across the fields of a request.
#[derive(Debug)]
pub struct FieldValidator {
    errors: Vec<(String, String)>,
}

impl View for FieldValidator {
    type V = FieldPairs;

    closed spec fn view(&self) -> FieldPairs {
        pairs_view(self.errors@)
    }
}

impl Default for FieldValidator {
    fn default() -> (r: Self)
        ensures
            r@ == Seq::<(Seq<char>, Seq<char>)>::empty(),
    {
        FieldValidator::new()
    }
}

impl FieldValidator {
    /// Create a new field validator
    pub fn new() -> (r: Self)
        ensures
            r@ == Seq::<(Seq<char>, Seq<char>)>::empty(),
    {
        let r = FieldValidator { errors: Vec::new() };
        assert(r@ =~= Seq::<(Seq<char>, Seq<char>)>::empty());
        r
    }

    /// Add an error for a specific field
    pub fn add(&mut self, field: &str, message: &str)
        ensures
            final(self)@ == old(self)@.push((field@, message@)),
    {
        let ghost before = self@;
        self.errors.push((field.to_owned(), message.to_owned()));
        assert(self@ =~= before.push((field@, message@)));
    }

    /// Add an error conditionally
    pub fn add_if(&mut self, condition: bool, field: &str, message: &str)
        ensures
            final(self)@ == (if condition { old(self)@.push((field@, message@)) } else { old(self)@ }),
    {
        if condition {
            self.add(field, message);
        }
    }

    /// Check if there are any errors
    pub fn is_empty(&self) -> (r: bool)
        ensures
            r == (self@.len() == 0),
    {
        self.errors.len() == 0
    }

    /// Get the number of errors
    pub fn len(&self) -> (r: usize)
        ensures
            r == self@.len(),
    {
        self.errors.len()
    }

    /// Get errors as field tuples
    pub fn errors(&self) -> (r: &[(String, String)])
        ensures
            pairs_view(r@) == self@,
    {
        self.errors.as_slice()
    }

    /// Convert into ServiceError::ValidationErrors
    pub fn into_service_error(self) -> (r: ServiceError)
        ensures
            r matches ServiceError::ValidationErrors(m) && m@ == group_by_field(self@),
    {
        validation_errors_from_fields(self.errors)
    }

    /// Get errors as Vec of tuples (consumes self)
    pub fn into_errors(self) -> (r: Vec<(String, String)>)
        ensures
            pairs_view(r@) == self@,
    {
        self.errors
    }

    /// Get errors as borrowed str tuples
    pub fn as_static_errors(&self) -> (r: Vec<(&str, &str)>)
        ensures
            str_pairs_view(r@) == self@,
    {
        let mut out: Vec<(&str, &str)> = Vec::new();
        let mut i: usize = 0;
        while i < self.errors.len()
            invariant
                i <= self.errors.len(),
                str_pairs_view(out@) =~= self@.take(i as int),
                self@ == pairs_view(self.errors@),
            decreases self.errors.len() - i,
        {
            let pair = &self.errors[i];
            let ghost prev = out@;
            let field = pair.0.as_str();
            let message = pair.1.as_str();
            out.push((field, message));
            proof {
                assert(str_pairs_view(out@) =~= str_pairs_view(prev).push((field@, message@)));
                assert(self@.take(i + 1) =~= self@.take(i as int).push(self@[i as int]));
            }
            i = i + 1;
        }
        assert(self@.take(i as int) =~= self@);
        out
    }
}

} // verus!
