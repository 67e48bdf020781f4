//! A report of validation errors, grouped by the name of the field they concern.
use vstd::prelude::*;

verus! {

/// What a report says: for each field that has errors, its messages in the order they were
/// added.
pub type ReportView = Map<Seq<char>, Seq<Seq<char>>>;

/// The messages recorded for `field` in `m` (none when the field is absent).
pub open spec fn errors_for(m: ReportView, field: Seq<char>) -> Seq<Seq<char>> {
    if m.contains_key(field) {
        m[field]
    } else {
        Seq::empty()
    }
}

/// `m` with `errors` appended to the messages of `field`.
pub open spec fn add_errors(m: ReportView, field: Seq<char>, errors: Seq<Seq<char>>) -> ReportView {
    m.insert(field, errors_for(m, field) + errors)
}

/// Two reports combined: every field of either, with the messages of `a` followed by those of `b`.
pub open spec fn merged(a: ReportView, b: ReportView) -> ReportView {
    Map::new(
        |k: Seq<char>| a.contains_key(k) || b.contains_key(k),
        |k: Seq<char>| errors_for(a, k) + errors_for(b, k),
    )
}

/// The report that holds `errors` under `field`, or nothing when `errors` is empty.
pub open spec fn single_field(field: Seq<char>, errors: Seq<Seq<char>>) -> ReportView {
    if errors.len() == 0 {
        Map::empty()
    } else {
        Map::empty().insert(field, errors)
    }
}

/// The characters of each string of `v`.
pub open spec fn strings_view(v: Seq<String>) -> Seq<Seq<char>> {
    v.map_values(|s: String| s@)
}

/// An entry of a report, seen as characters.
pub open spec fn entry_view(e: (String, Vec<String>)) -> (Seq<char>, Seq<Seq<char>>) {
    (e.0@, strings_view(e.1@))
}

/// The map that a list of entries describes, when each entry adds its messages to its field.
pub open spec fn fold_entries(m: ReportView, e: Seq<(Seq<char>, Seq<Seq<char>>)>) -> ReportView
    decreases e.len(),
{
    if e.len() == 0 {
        m
    } else {
        add_errors(fold_entries(m, e.drop_last()), e.last().0, e.last().1)
    }
}

/// Adding a message to a field makes it that field's newest message, after those it had, and
/// leaves every other field as it was.
pub proof fn lemma_add_then_get(m: ReportView, field: Seq<char>, msg: Seq<char>, other: Seq<char>)
    ensures
        add_errors(m, field, seq![msg]).contains_key(field),
        add_errors(m, field, seq![msg])[field] == errors_for(m, field).push(msg),
        other != field ==> errors_for(add_errors(m, field, seq![msg]), other) == errors_for(
            m,
            other,
        ),
{
    assert(errors_for(m, field) + seq![msg] =~= errors_for(m, field).push(msg));
}

/// Merging in an empty report changes nothing, and merging a report into an empty one gives
/// that report.
pub proof fn lemma_merge_identity(m: ReportView)
    ensures
        merged(m, Map::empty()) == m,
        merged(Map::empty(), m) == m,
{
    assert forall|k: Seq<char>| #[trigger] m.contains_key(k) implies errors_for(m, k) + errors_for(
        Map::<Seq<char>, Seq<Seq<char>>>::empty(),
        k,
    ) == m[k] && errors_for(Map::<Seq<char>, Seq<Seq<char>>>::empty(), k) + errors_for(m, k)
        == m[k] by {
        assert(errors_for(m, k) + Seq::<Seq<char>>::empty() =~= m[k]);
        assert(Seq::<Seq<char>>::empty() + errors_for(m, k) =~= m[k]);
    }
    assert(merged(m, Map::empty()) =~= m);
    assert(merged(Map::empty(), m) =~= m);
}

/// Merging reports is associative: the messages of each field keep the order of the reports.
pub proof fn lemma_merge_associative(a: ReportView, b: ReportView, c: ReportView)
    ensures
        merged(merged(a, b), c) == merged(a, merged(b, c)),
{
    let l = merged(merged(a, b), c);
    let r = merged(a, merged(b, c));
    assert forall|k: Seq<char>| #[trigger] l.contains_key(k) implies r.contains_key(k) && l[k]
        == r[k] by {
        assert(errors_for(a, k) + errors_for(b, k) + errors_for(c, k) =~= errors_for(a, k) + (
        errors_for(b, k) + errors_for(c, k)));
        if a.contains_key(k) || b.contains_key(k) {
            assert(errors_for(merged(a, b), k) == errors_for(a, k) + errors_for(b, k));
        } else {
            assert(errors_for(a, k) + errors_for(b, k) =~= Seq::<Seq<char>>::empty());
        }
        if b.contains_key(k) || c.contains_key(k) {
            assert(errors_for(merged(b, c), k) == errors_for(b, k) + errors_for(c, k));
        } else {
            assert(errors_for(b, k) + errors_for(c, k) =~= Seq::<Seq<char>>::empty());
        }
    }
    assert(l =~= r);
}

/// A report with a message added is not empty, and a merged report is empty exactly when both
/// reports were: so a report built from `Report::new` by adding and merging is empty exactly
/// when no message was ever added to it.
pub proof fn lemma_empty_until_added(m: ReportView, field: Seq<char>, msg: Seq<char>, a: ReportView, b: ReportView)
    ensures
        !add_errors(m, field, seq![msg]).dom().is_empty(),
        add_errors(m, field, seq![msg])[field].len() > 0,
        merged(a, b).dom().is_empty() <==> (a.dom().is_empty() && b.dom().is_empty()),
{
    let added = add_errors(m, field, seq![msg]);
    assert(added.dom().contains(field));
    let c = merged(a, b);
    if !a.dom().is_empty() {
        let k = a.dom().choose();
        assert(c.dom().contains(k));
    }
    if !b.dom().is_empty() {
        let k = b.dom().choose();
        assert(c.dom().contains(k));
    }
    if a.dom().is_empty() && b.dom().is_empty() {
        assert forall|k: Seq<char>| !c.dom().contains(k) by {
            assert(!a.dom().contains(k));
            assert(!b.dom().contains(k));
        }
        assert(c.dom() =~= Set::<Seq<char>>::empty());
    }
}

/// A field's first message is the first one it ever received: a field that had none gets the
/// added message, or the first message of the report merged in, as its first; and once it has
/// one, adding to any field or merging any report in keeps it first.
pub proof fn lemma_first_message_stays(
    m: ReportView,
    b: ReportView,
    field: Seq<char>,
    other: Seq<char>,
    msg: Seq<char>,
)
    ensures
        !m.contains_key(field) ==> add_errors(m, field, seq![msg])[field][0] == msg,
        !m.contains_key(field) && b.contains_key(field) && b[field].len() > 0 ==> merged(
            m,
            b,
        )[field][0] == b[field][0],
        m.contains_key(field) && m[field].len() > 0 ==> add_errors(m, other, seq![msg])[field][0]
            == m[field][0],
        m.contains_key(field) && m[field].len() > 0 ==> merged(m, b)[field][0] == m[field][0],
{
    if !m.contains_key(field) {
        assert(errors_for(m, field) =~= Seq::<Seq<char>>::empty());
        assert((Seq::<Seq<char>>::empty() + seq![msg])[0] == msg);
        if b.contains_key(field) && b[field].len() > 0 {
            assert(errors_for(m, field) + errors_for(b, field) =~= b[field]);
        }
    } else if m[field].len() > 0 {
        assert((m[field] + seq![msg])[0] == m[field][0]);
        assert((m[field] + errors_for(b, field))[0] == m[field][0]);
    }
}

/// Folding the outcome of a report's `to_result` into another report with `merge_result`
/// gives the same report as merging the first report in directly.
pub proof fn lemma_merge_result_of_to_result(a: ReportView, b: ReportView, r: Result<()>)
    requires
        reports(r, b),
    ensures
        match r {
            Err(Error::Report(rep)) => merged(a, rep@) == merged(a, b),
            _ => a == merged(a, b),
        },
{
    lemma_merge_identity(a);
    if r is Ok {
        assert(b =~= Map::<Seq<char>, Seq<Seq<char>>>::empty());
    }
}

/// The text of a field's messages: one line " - message" each.
pub open spec fn messages_text(errors: Seq<Seq<char>>) -> Seq<char>
    decreases errors.len(),
{
    if errors.len() == 0 {
        Seq::empty()
    } else {
        messages_text(errors.drop_last()) + " - "@ + errors.last() + "\n"@
    }
}

/// The text of a report's entries: for each field, a line "field:" and then its messages.
pub open spec fn report_text(e: Seq<(Seq<char>, Seq<Seq<char>>)>) -> Seq<char>
    decreases e.len(),
{
    if e.len() == 0 {
        Seq::empty()
    } else {
        report_text(e.drop_last()) + e.last().0 + ":\n"@ + messages_text(e.last().1)
    }
}

/// Validation failed: the report says why. Anything else that went wrong is `Other`.
#[derive(Debug)]
pub enum Error {
    Report(Report),
    Other(String),
}

/// The outcome of a validation step.
pub type Result<T> = core::result::Result<T, Error>;

/// Whether `r` is the outcome that a report `m` stands for: `Ok` when it is empty, and
/// otherwise an error that carries exactly `m`.
pub open spec fn reports(r: Result<()>, m: ReportView) -> bool {
    match r {
        Ok(()) => m.dom().is_empty(),
        Err(Error::Report(rep)) => !m.dom().is_empty() && rep@ == m && rep.wf(),
        Err(Error::Other(_)) => false,
    }
}

/// Validation errors keyed by field name, held as a list of entries, one per field, in the order
/// the fields were first reported (a `HashMap` keyed by `String` is a map whose operations Verus
/// does not prove much of). `wf` states that each field occurs once and has a message.
#[derive(Debug)]
pub struct Report {
    errors: Vec<(String, Vec<String>)>,
}

impl View for Report {
    type V = ReportView;

    closed spec fn view(&self) -> ReportView {
        fold_entries(Map::empty(), self.entries())
    }
}

proof fn lemma_fold_merged(m: ReportView, e: Seq<(Seq<char>, Seq<Seq<char>>)>)
    ensures
        fold_entries(m, e) == merged(m, fold_entries(Map::empty(), e)),
    decreases e.len(),
{
    if e.len() == 0 {
        assert(merged(m, Map::empty()) =~= m);
    } else {
        let d = e.drop_last();
        let x = e.last();
        lemma_fold_merged(m, d);
        let f = fold_entries(Map::empty(), d);
        let lhs = add_errors(merged(m, f), x.0, x.1);
        let rhs = merged(m, add_errors(f, x.0, x.1));
        assert forall|k: Seq<char>| lhs.contains_key(k) implies lhs[k] == rhs[k] by {
            if k == x.0 {
                assert(errors_for(m, k) + errors_for(f, k) + x.1 =~= errors_for(m, k) + (
                errors_for(f, k) + x.1));
            }
        }
        assert(lhs =~= rhs);
    }
}

impl Report {
    /// The entries of the report, seen as characters.
    pub closed spec fn entries(&self) -> Seq<(Seq<char>, Seq<Seq<char>>)> {
        self.errors@.map_values(|e: (String, Vec<String>)| entry_view(e))
    }

    /// Each field occurs once, and each occurring field has at least one message.
    pub closed spec fn wf(&self) -> bool {
        &&& forall|i: int, j: int|
            0 <= i < j < self.errors@.len() ==> #[trigger] self.errors@[i].0@
                != #[trigger] self.errors@[j].0@
        &&& forall|i: int| 0 <= i < self.errors@.len() ==> #[trigger] self.errors@[i].1@.len() > 0
    }

    proof fn lemma_view(&self)
        requires
            self.wf(),
        ensures
            forall|k: Seq<char>|
                #![trigger self@.contains_key(k)]
                self@.contains_key(k) <==> exists|i: int|
                    0 <= i < self.errors@.len() && #[trigger] self.errors@[i].0@ == k,
            forall|i: int|
                0 <= i < self.errors@.len() ==> #[trigger] self@[self.errors@[i].0@]
                    == strings_view(self.errors@[i].1@),
            self@.dom().is_empty() <==> self.errors@.len() == 0,
    {
        let e = self.entries();
        assert forall|i: int, j: int| 0 <= i < j < e.len() implies #[trigger] e[i].0
            != #[trigger] e[j].0 by {
            assert(e[i] == entry_view(self.errors@[i]));
            assert(e[j] == entry_view(self.errors@[j]));
        }
        Self::lemma_fold_distinct(e);
        assert(self@ == fold_entries(Map::empty(), e));
        assert forall|k: Seq<char>| #![trigger self@.contains_key(k)]
            self@.contains_key(k) <==> exists|i: int|
                0 <= i < self.errors@.len() && #[trigger] self.errors@[i].0@ == k by {
            if self@.contains_key(k) {
                assert(fold_entries(Map::empty(), e).contains_key(k));
                let i = choose|i: int| 0 <= i < e.len() && #[trigger] e[i].0 == k;
                assert(e[i] == entry_view(self.errors@[i]));
                assert(self.errors@[i].0@ == k);
            }
            if exists|i: int| 0 <= i < self.errors@.len() && #[trigger] self.errors@[i].0@ == k {
                let i = choose|i: int| 0 <= i < self.errors@.len() && #[trigger] self.errors@[i].0@ == k;
                assert(e[i] == entry_view(self.errors@[i]));
                assert(e[i].0 == k);
                assert(fold_entries(Map::empty(), e).contains_key(k));
            }
        }
        assert forall|i: int|
            0 <= i < self.errors@.len() implies #[trigger] self@[self.errors@[i].0@]
                == strings_view(self.errors@[i].1@) by {
            assert(e[i] == entry_view(self.errors@[i]));
            assert(fold_entries(Map::empty(), e)[e[i].0] == e[i].1);
        }
        if self.errors@.len() > 0 {
            assert(e[0] == entry_view(self.errors@[0]));
            assert(self@.contains_key(e[0].0));
        }
    }

    proof fn lemma_fold_distinct(e: Seq<(Seq<char>, Seq<Seq<char>>)>)
        requires
            forall|i: int, j: int| 0 <= i < j < e.len() ==> #[trigger] e[i].0 != #[trigger] e[j].0,
        ensures
            forall|k: Seq<char>|
                #![trigger fold_entries(Map::empty(), e).contains_key(k)]
                fold_entries(Map::empty(), e).contains_key(k) <==> exists|i: int|
                    0 <= i < e.len() && #[trigger] e[i].0 == k,
            forall|i: int|
                0 <= i < e.len() ==> #[trigger] fold_entries(Map::empty(), e)[e[i].0] == e[i].1,
        decreases e.len(),
    {
        if e.len() > 0 {
            let d = e.drop_last();
            assert forall|i: int, j: int| 0 <= i < j < d.len() implies #[trigger] d[i].0
                != #[trigger] d[j].0 by {
                assert(d[i] == e[i] && d[j] == e[j]);
            }
            Self::lemma_fold_distinct(d);
            let f = fold_entries(Map::empty(), d);
            let x = e.last();
            assert(!f.contains_key(x.0)) by {
                if f.contains_key(x.0) {
                    let i = choose|i: int| 0 <= i < d.len() && #[trigger] d[i].0 == x.0;
                    assert(e[i].0 == e[e.len() - 1].0);
                }
            }
            assert(errors_for(f, x.0) + x.1 =~= x.1);
            assert forall|k: Seq<char>|
                #![trigger fold_entries(Map::empty(), e).contains_key(k)]
                fold_entries(Map::empty(), e).contains_key(k) <==> exists|i: int|
                    0 <= i < e.len() && #[trigger] e[i].0 == k by {
                if f.contains_key(k) {
                    let i = choose|i: int| 0 <= i < d.len() && #[trigger] d[i].0 == k;
                    assert(e[i].0 == k);
                }
                if exists|i: int| 0 <= i < e.len() && #[trigger] e[i].0 == k {
                    let i = choose|i: int| 0 <= i < e.len() && #[trigger] e[i].0 == k;
                    if i < e.len() - 1 {
                        assert(d[i].0 == k);
                    }
                }
            }
            assert forall|i: int| 0 <= i < e.len() implies #[trigger] fold_entries(
                Map::empty(),
                e,
            )[e[i].0] == e[i].1 by {
                if i < e.len() - 1 {
                    assert(d[i] == e[i]);
                    assert(e[i].0 != x.0);
                }
            }
        }
    }

    /// An empty report.
    pub fn new() -> (r: Self)
        ensures
            r.wf(),
            r@ == Map::<Seq<char>, Seq<Seq<char>>>::empty(),
    {
        let r = Report { errors: Vec::new() };
        assert(r.entries() =~= Seq::<(Seq<char>, Seq<Seq<char>>)>::empty());
        r
    }

    /// Whether the report holds no errors.
    pub fn is_empty(&self) -> (b: bool)
        requires
            self.wf(),
        ensures
            b == self@.dom().is_empty(),
    {
        proof {
            self.lemma_view();
        }
        self.errors.len() == 0
    }

    /// The position of `field` among the entries, if it has one.
    fn position(&self, field: &str) -> (r: Option<usize>)
        ensures
            match r {
                Some(i) => i < self.errors@.len() && self.errors@[i as int].0@ == field@,
                None => forall|i: int|
                    0 <= i < self.errors@.len() ==> #[trigger] self.errors@[i].0@ != field@,
            },
    {
        let mut i: usize = 0;
        while i < self.errors.len()
            invariant
                i <= self.errors@.len(),
                forall|j: int| 0 <= j < i ==> #[trigger] self.errors@[j].0@ != field@,
            decreases self.errors@.len() - i,
        {
            if crate::text::str_eq(self.errors[i].0.as_str(), field) {
                return Some(i);
            }
            i = i + 1;
        }
        None
    }

    /// Appends `errors` to the messages of `field`.
    fn add_all(&mut self, field: String, errors: Vec<String>)
        requires
            old(self).wf(),
            errors@.len() > 0,
        ensures
            final(self).wf(),
            final(self)@ == add_errors(old(self)@, field@, strings_view(errors@)),
    {
        let ghost old_e = self.errors@;
        proof {
            self.lemma_view();
        }
        match self.position(field.as_str()) {
            Some(i) => {
                let (k, mut v) = self.errors.remove(i);
                let mut errors = errors;
                let ghost old_v = v@;
                let ghost new_errs = errors@;
                v.append(&mut errors);
                self.errors.insert(i, (k, v));
                proof {
                    assert(self.errors@ =~= old_e.update(i as int, (k, v)));
                    assert(k@ == field@);
                    assert forall|a: int, b: int|
                        0 <= a < b < self.errors@.len() implies #[trigger] self.errors@[a].0@
                        != #[trigger] self.errors@[b].0@ by {
                        assert(old_e[a].0@ != old_e[b].0@);
                    }
                    assert forall|a: int| 0 <= a < self.errors@.len() implies #[trigger] self.errors@[a].1@.len() > 0 by {
                        assert(old_e[a].1@.len() > 0);
                    }
                    self.lemma_view();
                    let target = add_errors(old(self)@, field@, strings_view(new_errs));
                    assert(strings_view(v@) =~= strings_view(old_v) + strings_view(new_errs));
                    assert(old(self)@.contains_key(field@));
                    assert(old(self)@[old_e[i as int].0@] == strings_view(old_e[i as int].1@));
                    assert(self@.contains_key(field@)) by {
                        assert(self.errors@[i as int].0@ == field@);
                    }
                    assert forall|kk: Seq<char>| #[trigger] target.contains_key(kk) implies self@.contains_key(kk) by {
                        if kk != field@ {
                            assert(old(self)@.contains_key(kk));
                            let j = choose|j: int| 0 <= j < old_e.len() && #[trigger] old_e[j].0@ == kk;
                            assert(j != i);
                            assert(self.errors@[j].0@ == kk);
                        }
                    }
                    assert forall|kk: Seq<char>| #[trigger] self@.contains_key(kk) implies target.contains_key(kk) && self@[kk] == target[kk] by {
                        let j = choose|j: int| 0 <= j < self.errors@.len() && #[trigger] self.errors@[j].0@ == kk;
                        assert(self@[self.errors@[j].0@] == strings_view(self.errors@[j].1@));
                        if j != i {
                            assert(old_e[j] == self.errors@[j]);
                            assert(old_e[j].0@ == kk);
                            assert(old(self)@.contains_key(kk));
                            assert(old(self)@[old_e[j].0@] == strings_view(old_e[j].1@));
                            assert(kk != field@);
                        }
                    }
                    assert(self@ =~= target);
                }
            }
            None => {
                self.errors.push((field, errors));
                proof {
                    assert(self.entries() =~= old(self).entries().push(entry_view((field, errors))));
                    assert(self.entries().drop_last() =~= old(self).entries());
                    assert forall|a: int, b: int|
                        0 <= a < b < self.errors@.len() implies #[trigger] self.errors@[a].0@
                        != #[trigger] self.errors@[b].0@ by {
                        if b < old_e.len() {
                            assert(old_e[a].0@ != old_e[b].0@);
                        } else {
                            assert(old_e[a].0@ != field@);
                        }
                    }
                    assert forall|a: int| 0 <= a < self.errors@.len() implies #[trigger] self.errors@[a].1@.len() > 0 by {
                        if a < old_e.len() {
                            assert(old_e[a].1@.len() > 0);
                        }
                    }
                }
            }
        }
    }

    /// Records `error` as the newest message for `field`.
    pub fn add(&mut self, field: &str, error: &str)
        requires
            old(self).wf(),
        ensures
            final(self).wf(),
            final(self)@ == add_errors(old(self)@, field@, seq![error@]),
    {
        let mut errors: Vec<String> = Vec::new();
        errors.push(String::from_str(error));
        assert(strings_view(errors@) =~= seq![error@]);
        self.add_all(String::from_str(field), errors);
    }

    /// The messages recorded for `field`, if it has any.
    pub fn get(&self, field: &str) -> (r: Option<&Vec<String>>)
        requires
            self.wf(),
        ensures
            match r {
                Some(v) => self@.contains_key(field@) && strings_view(v@) == self@[field@],
                None => !self@.contains_key(field@),
            },
    {
        proof {
            self.lemma_view();
        }
        match self.position(field) {
            Some(i) => Some(&self.errors[i].1),
            None => None,
        }
    }

    /// The first message recorded for `field`, if it has any.
    pub fn get_first(&self, field: &str) -> (r: Option<&String>)
        requires
            self.wf(),
        ensures
            match r {
                Some(s) => self@.contains_key(field@) && s@ == self@[field@][0],
                None => !self@.contains_key(field@),
            },
    {
        proof {
            self.lemma_view();
        }
        match self.position(field) {
            Some(i) => {
                assert(self.errors@[i as int].1@.len() > 0);
                Some(&self.errors[i].1[0])
            }
            None => None,
        }
    }

    /// Adds every message of `other` to this report, field by field.
    pub fn merge(&mut self, other: Self)
        requires
            old(self).wf(),
            other.wf(),
        ensures
            final(self).wf(),
            final(self)@ == merged(old(self)@, other@),
    {
        let ghost oe = other.entries();
        let ghost start = self@;
        let mut rest = other.errors;
        let ghost n = rest@.len();
        assert(n == rest.len());
        let mut done: usize = 0;
        while rest.len() > 0
            invariant
                self.wf(),
                done + rest@.len() == n == oe.len(),
                n <= usize::MAX,
                rest@.map_values(|e: (String, Vec<String>)| entry_view(e)) == oe.subrange(done as int, n as int),
                forall|a: int| 0 <= a < rest@.len() ==> #[trigger] rest@[a].1@.len() > 0,
                self@ == fold_entries(start, oe.take(done as int)),
            decreases rest@.len(),
        {
            let ghost before = rest@;
            let (field, errors) = rest.remove(0);
            proof {
                assert(before[0].1@.len() > 0);
                let mapped = before.map_values(|e: (String, Vec<String>)| entry_view(e));
                assert(mapped[0] == entry_view(before[0]));
                assert(oe.subrange(done as int, n as int)[0] == oe[done as int]);
                assert(oe[done as int] == entry_view(before[0]));
            }
            self.add_all(field, errors);
            proof {
                assert forall|a: int| 0 <= a < rest@.len() implies #[trigger] rest@[a].1@.len() > 0 by {
                    assert(rest@[a] == before[a + 1]);
                }
                let mapped = before.map_values(|e: (String, Vec<String>)| entry_view(e));
                assert(rest@ =~= before.subrange(1, before.len() as int));
                let rm = rest@.map_values(|e: (String, Vec<String>)| entry_view(e));
                assert forall|a: int| 0 <= a < rest@.len() implies #[trigger] rm[a] == oe.subrange(done + 1, n as int)[a] by {
                    assert(mapped[a + 1] == entry_view(before[a + 1]));
                    assert(oe.subrange(done as int, n as int)[a + 1] == oe[done + 1 + a]);
                }
                assert(rest@.map_values(|e: (String, Vec<String>)| entry_view(e)) =~= oe.subrange(done + 1, n as int));
                assert(oe.take(done + 1).drop_last() =~= oe.take(done as int));
            }
            done = done + 1;
        }
        proof {
            assert(oe.take(n as int) =~= oe);
            lemma_fold_merged(start, oe);
        }
    }

    /// Folds the outcome of a validation step into this report: a report is merged in and
    /// `Ok` returned; any other error is handed back.
    pub fn merge_result(&mut self, result: Result<()>) -> (r: Result<()>)
        requires
            old(self).wf(),
            result matches Err(Error::Report(rep)) ==> rep.wf(),
        ensures
            final(self).wf(),
            match result {
                Err(Error::Report(rep)) => final(self)@ == merged(old(self)@, rep@) && r is Ok,
                Err(Error::Other(e)) => final(self)@ == old(self)@ && r == Err::<(), Error>(Error::Other(e)),
                Ok(()) => final(self)@ == old(self)@ && r is Ok,
            },
    {
        match result {
            Err(Error::Report(report)) => {
                self.merge(report);
                Ok(())
            },
            Err(Error::Other(e)) => Err(Error::Other(e)),
            Ok(()) => Ok(()),
        }
    }

    /// In a well-formed report every field that is present has at least one message, so the
    /// report is empty exactly when no field has a first message.
    pub proof fn lemma_fields_have_messages(&self)
        requires
            self.wf(),
        ensures
            forall|f: Seq<char>| #[trigger] self@.contains_key(f) ==> self@[f].len() > 0,
            self@.dom().is_empty() <==> (forall|f: Seq<char>| !#[trigger] self@.contains_key(f)),
    {
        self.lemma_view();
        assert forall|f: Seq<char>| #[trigger] self@.contains_key(f) implies self@[f].len() > 0 by {
            let i = choose|i: int| 0 <= i < self.errors@.len() && #[trigger] self.errors@[i].0@ == f;
            assert(self@[self.errors@[i].0@] == strings_view(self.errors@[i].1@));
            assert(self.errors@[i].1@.len() > 0);
        }
        if forall|f: Seq<char>| !#[trigger] self@.contains_key(f) {
            assert(self@.dom() =~= Set::<Seq<char>>::empty());
        }
        if !self@.dom().is_empty() {
            let k = self@.dom().choose();
            assert(self@.contains_key(k));
        }
    }

    /// The report as text: for each field, in the order the fields were first reported, a line
    /// "field:" followed by one line " - message" for each of its messages.
    pub fn to_string(&self) -> (t: String)
        ensures
            t@ == report_text(self.entries()),
    {
        let mut t = String::new();
        let mut i: usize = 0;
        while i < self.errors.len()
            invariant
                i <= self.errors@.len(),
                t@ == report_text(self.entries().take(i as int)),
            decreases self.errors@.len() - i,
        {
            let ghost before = t@;
            t.append(self.errors[i].0.as_str());
            t.append(":\n");
            let errors = &self.errors[i].1;
            let ghost head = t@;
            let mut j: usize = 0;
            while j < errors.len()
                invariant
                    j <= errors@.len(),
                    t@ == head + messages_text(strings_view(errors@).take(j as int)),
                decreases errors@.len() - j,
            {
                t.append(" - ");
                t.append(errors[j].as_str());
                t.append("\n");
                proof {
                    let w = strings_view(errors@);
                    assert(w.take(j + 1).drop_last() =~= w.take(j as int));
                }
                j = j + 1;
            }
            proof {
                let w = strings_view(errors@);
                assert(w.take(errors@.len() as int) =~= w);
                let e = self.entries();
                assert(e.take(i + 1).drop_last() =~= e.take(i as int));
                assert(e[i as int] == entry_view(self.errors@[i as int]));
            }
            i = i + 1;
        }
        assert(self.entries().take(self.errors@.len() as int) =~= self.entries());
        t
    }

    /// `Ok` when the report is empty, and otherwise the report as an error.
    pub fn to_result(self) -> (r: Result<()>)
        requires
            self.wf(),
        ensures
            reports(r, self@),
    {
        if self.is_empty() {
            Ok(())
        } else {
            Err(Error::Report(self))
        }
    }
}

} // verus!
