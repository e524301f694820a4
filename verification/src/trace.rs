//! What the program reports about its own work.

use vstd::prelude::*;

verus! {

/// A named value of a report.
#[derive(Debug)]
pub struct Field {
    pub name: String,
    pub value: String,
}

/// One report: a message, and named values beside it, no name twice.
#[derive(Debug)]
pub struct Trace {
    pub message: String,
    pub fields: Vec<Field>,
}

/// The model of a [`Trace`].
#[verifier::ext_equal]
pub struct TraceView {
    pub message: Seq<char>,
    pub fields: Map<Seq<char>, Seq<char>>,
}

/// The values by their names.
pub open spec fn fields_by_name(fields: Seq<Field>) -> Map<Seq<char>, Seq<char>>
    decreases fields.len(),
{
    if fields.len() == 0 {
        Map::empty()
    } else {
        fields_by_name(fields.drop_last()).insert(fields.last().name@, fields.last().value@)
    }
}

impl View for Trace {
    type V = TraceView;

    open spec fn view(&self) -> TraceView {
        TraceView { message: self.message@, fields: fields_by_name(self.fields@) }
    }
}

/// The models of a list of reports.
pub open spec fn trace_views(traces: Seq<Trace>) -> Seq<TraceView> {
    traces.map_values(|t: Trace| t@)
}

/// The messages of reports, a line break behind each.
pub open spec fn message_text(traces: Seq<TraceView>) -> Seq<char>
    decreases traces.len(),
{
    if traces.len() == 0 {
        Seq::empty()
    } else {
        message_text(traces.drop_last()) + traces.last().message + "\n"@
    }
}

/// No name occurs twice.
pub open spec fn distinct_names(fields: Seq<Field>) -> bool {
    forall|i: int, j: int|
        0 <= i < j < fields.len() ==> (#[trigger] fields[i]).name@ != (#[trigger] fields[j]).name@
}

/// The name under which the message itself is reported.
pub const MESSAGE_FIELD: &'static str = "message";

impl TraceView {
    /// The report with one more value.
    pub open spec fn with(self, name: Seq<char>, value: Seq<char>) -> TraceView {
        if name == MESSAGE_FIELD@ {
            TraceView { message: value, ..self }
        } else {
            TraceView { fields: self.fields.insert(name, value), ..self }
        }
    }
}

/// A report of nothing.
pub open spec fn empty_trace() -> TraceView {
    TraceView { message: Seq::empty(), fields: Map::empty() }
}

impl Trace {
    /// A report of nothing.
    pub fn new() -> (r: Trace)
        ensures
            r@ == empty_trace(),
            distinct_names(r.fields@),
    {
        proof {
            reveal_strlit("");
        }
        let r = Trace { message: "".to_owned(), fields: Vec::new() };
        assert(r@ =~= empty_trace());
        r
    }

    /// Adds a value, in place of an earlier one of that name; the message is a value too.
    pub fn record(&mut self, name: String, value: String)
        requires
            distinct_names(old(self).fields@),
        ensures
            final(self)@ == old(self)@.with(name@, value@),
            distinct_names(final(self).fields@),
    {
        if name == MESSAGE_FIELD.to_owned() {
            self.message = value;
            return;
        }
        let ghost before = self.fields@;
        let ghost message = self.message;
        let mut i: usize = 0;
        while i < self.fields.len()
            invariant
                i <= self.fields.len(),
                self.fields@ == before,
                self.message == message,
                before == old(self).fields@,
                message == old(self).message,
                distinct_names(before),
                name@ != MESSAGE_FIELD@,
                forall|j: int| 0 <= j < i ==> (#[trigger] before[j]).name@ != name@,
            decreases self.fields.len() - i,
        {
            if self.fields[i].name == name {
                let ghost field = Field { name: before[i as int].name, value };
                proof {
                    lemma_value_is_replaced(before, i as int, field);
                }
                self.fields[i].value = value;
                assert(self.fields@ =~= before.update(i as int, field));
                return;
            }
            i = i + 1;
        }
        self.fields.push(Field { name, value });
        assert(self.fields@.drop_last() =~= before);
    }
}

proof fn lemma_value_is_replaced(fields: Seq<Field>, i: int, field: Field)
    requires
        distinct_names(fields),
        0 <= i < fields.len(),
        field.name@ == fields[i].name@,
    ensures
        fields_by_name(fields.update(i, field)) == fields_by_name(fields).insert(
            field.name@,
            field.value@,
        ),
        distinct_names(fields.update(i, field)),
    decreases fields.len(),
{
    let after = fields.update(i, field);
    assert forall|a: int, b: int| 0 <= a < b < after.len() implies (#[trigger] after[a]).name@ != (
    #[trigger] after[b]).name@ by {
        assert(fields[a].name@ != fields[b].name@);
    }
    if i == fields.len() - 1 {
        assert(after.drop_last() =~= fields.drop_last());
        assert(fields_by_name(after) =~= fields_by_name(fields).insert(field.name@, field.value@));
    } else {
        let earlier = fields.drop_last();
        assert forall|a: int, b: int| 0 <= a < b < earlier.len() implies (
        #[trigger] earlier[a]).name@ != (#[trigger] earlier[b]).name@ by {
            assert(fields[a].name@ != fields[b].name@);
        }
        lemma_value_is_replaced(earlier, i, field);
        assert(after.drop_last() =~= earlier.update(i, field));
        assert(fields[i].name@ != fields.last().name@);
        assert(fields_by_name(after) =~= fields_by_name(fields).insert(field.name@, field.value@));
    }
}

} // verus!
