//! Field validation of request models: which rule failed for which field,
//! with the parameters reported back to the client.

use vstd::prelude::*;

verus! {

/// A parameter value reported with a validation error.
pub enum ParamValue {
    Null,
    Int(i64),
    /// A floating point bound with an integral value (range bounds are
    /// reported as floats).
    WholeFloat(i64),
    Str(String),
}

/// Mathematical view of a parameter value.
pub enum ParamView {
    Null,
    Int(int),
    WholeFloat(int),
    Str(Seq<char>),
}

impl View for ParamValue {
    type V = ParamView;

    open spec fn view(&self) -> ParamView {
        match self {
            ParamValue::Null => ParamView::Null,
            ParamValue::Int(i) => ParamView::Int(*i as int),
            ParamValue::WholeFloat(i) => ParamView::WholeFloat(*i as int),
            ParamValue::Str(s) => ParamView::Str(s@),
        }
    }
}

/// One failed rule on one field.
pub struct FieldError {
    pub field: String,
    pub code: String,
    pub message: Option<String>,
    pub params: Vec<(String, ParamValue)>,
}

/// Mathematical view of a failed rule.
pub struct FieldErrorView {
    pub field: Seq<char>,
    pub code: Seq<char>,
    pub message: Option<Seq<char>>,
    pub params: Seq<(Seq<char>, ParamView)>,
}

impl View for FieldError {
    type V = FieldErrorView;

    open spec fn view(&self) -> FieldErrorView {
        FieldErrorView {
            field: self.field@,
            code: self.code@,
            message: match self.message {
                Some(m) => Some(m@),
                None => None,
            },
            params: self.params@.map_values(|p: (String, ParamValue)| (p.0@, p.1@)),
        }
    }
}

/// The failed rules of a whole request, field by field in declaration
/// order and, within a field, in the order its rules are declared.
pub struct ValidationErrors {
    pub errors: Vec<FieldError>,
}

/// Views of a list of failed rules.
pub open spec fn errors_view(s: Seq<FieldError>) -> Seq<FieldErrorView> {
    s.map_values(|e: FieldError| e@)
}

impl View for ValidationErrors {
    type V = Seq<FieldErrorView>;

    open spec fn view(&self) -> Seq<FieldErrorView> {
        errors_view(self.errors@)
    }
}

/// The failed rules of one field: the field's name and the positions of its
/// failures in the list, in list order.
pub struct FieldGroup {
    pub field: String,
    pub errors: Vec<usize>,
}

/// Whether position `i` is listed in one of the groups.
pub open spec fn in_some_group(groups: Seq<(Seq<char>, Seq<usize>)>, i: int) -> bool {
    exists|g: int, k: int| 0 <= g < groups.len() && 0 <= k < groups[g].1.len() && #[trigger] groups[g].1[k] == i
}

/// Whether `groups` gathers the failures of `errs` field by field: each
/// group lists, in increasing order, exactly the positions of the failures
/// of its field; every failure belongs to a group; no two groups share a
/// field; and groups come in the order their fields first fail.
pub open spec fn grouped_by_field(errs: Seq<FieldErrorView>, groups: Seq<(Seq<char>, Seq<usize>)>) -> bool {
    &&& forall|g: int, k: int| 0 <= g < groups.len() && 0 <= k < groups[g].1.len() ==>
        #[trigger] groups[g].1[k] < errs.len() && errs[groups[g].1[k] as int].field == groups[g].0
    &&& forall|g: int, k1: int, k2: int| 0 <= g < groups.len() && 0 <= k1 < k2 < groups[g].1.len() ==>
        #[trigger] groups[g].1[k1] < #[trigger] groups[g].1[k2]
    &&& forall|i: int| 0 <= i < errs.len() ==> #[trigger] in_some_group(groups, i)
    &&& forall|g1: int, g2: int| 0 <= g1 < groups.len() && 0 <= g2 < groups.len() && g1 != g2 ==>
        #[trigger] groups[g1].0 != #[trigger] groups[g2].0
    &&& forall|g: int| 0 <= g < groups.len() ==> #[trigger] groups[g].1.len() > 0
    &&& forall|g1: int, g2: int| 0 <= g1 < g2 < groups.len() ==>
        #[trigger] groups[g1].1[0] < #[trigger] groups[g2].1[0]
}

/// Views of field groups.
pub open spec fn groups_view(v: Seq<FieldGroup>) -> Seq<(Seq<char>, Seq<usize>)> {
    v.map_values(|g: FieldGroup| (g.field@, g.errors@))
}

fn with_index(v: &Vec<usize>, i: usize) -> (r: Vec<usize>)
    ensures
        r@ == v@.push(i),
{
    let mut out: Vec<usize> = Vec::new();
    let mut k: usize = 0;
    while k < v.len()
        invariant
            k <= v.len(),
            out@ == v@.subrange(0, k as int),
        decreases v.len() - k,
    {
        out.push(v[k]);
        k = k + 1;
        assert(out@ =~= v@.subrange(0, k as int));
    }
    out.push(i);
    assert(out@ =~= v@.push(i));
    out
}

fn find_group(groups: &Vec<FieldGroup>, f: &str) -> (r: Option<usize>)
    ensures
        match r {
            Some(g) => g < groups.len() && groups@[g as int].field@ == f@,
            None => forall|h: int| 0 <= h < groups.len() ==> #[trigger] groups@[h].field@ != f@,
        },
{
    let mut g: usize = 0;
    while g < groups.len()
        invariant
            g <= groups.len(),
            forall|h: int| 0 <= h < g ==> #[trigger] groups@[h].field@ != f@,
        decreases groups.len() - g,
    {
        if crate::text::str_eq(groups[g].field.as_str(), f) {
            return Some(g);
        }
        g = g + 1;
    }
    None
}

proof fn lemma_group_extend(
    ev: Seq<FieldErrorView>,
    i: usize,
    before: Seq<(Seq<char>, Seq<usize>)>,
    after: Seq<(Seq<char>, Seq<usize>)>,
    g: int,
)
    requires
        i < ev.len(),
        grouped_by_field(ev.subrange(0, i as int), before),
        0 <= g < before.len(),
        before[g].0 == ev[i as int].field,
        after == before.update(g, (before[g].0, before[g].1.push(i))),
    ensures
        grouped_by_field(ev.subrange(0, i + 1), after),
{
    let pre = ev.subrange(0, i as int);
    let post = ev.subrange(0, i + 1);
    assert forall|h: int, k: int| 0 <= h < after.len() && 0 <= k < after[h].1.len() implies
        #[trigger] after[h].1[k] < post.len() && post[after[h].1[k] as int].field == after[h].0 by {
        if h == g && k == before[g].1.len() {
        } else {
            assert(after[h].1[k] == before[h].1[k]);
            assert(before[h].1[k] < pre.len());
            assert(post[before[h].1[k] as int] == pre[before[h].1[k] as int]);
        }
    }
    assert forall|h: int, k1: int, k2: int| 0 <= h < after.len() && 0 <= k1 < k2 < after[h].1.len() implies
        #[trigger] after[h].1[k1] < #[trigger] after[h].1[k2] by {
        if h == g && k2 == before[g].1.len() {
            assert(after[h].1[k1] == before[h].1[k1]);
            assert(before[h].1[k1] < pre.len());
        } else {
            assert(after[h].1[k1] == before[h].1[k1]);
            assert(after[h].1[k2] == before[h].1[k2]);
        }
    }
    assert forall|j: int| 0 <= j < post.len() implies #[trigger] in_some_group(after, j) by {
        if j == i {
            assert(after[g].1[before[g].1.len() as int] == j);
        } else {
            assert(0 <= j < pre.len());
            assert(in_some_group(before, j));
            let (h, k) = choose|h: int, k: int| 0 <= h < before.len() && 0 <= k < before[h].1.len() && #[trigger] before[h].1[k] == j;
            assert(after[h].1[k] == j);
        }
    }
    assert forall|h1: int, h2: int| 0 <= h1 < after.len() && 0 <= h2 < after.len() && h1 != h2 implies
        #[trigger] after[h1].0 != #[trigger] after[h2].0 by {
        assert(after[h1].0 == before[h1].0);
        assert(after[h2].0 == before[h2].0);
    }
    assert forall|h: int| 0 <= h < after.len() implies #[trigger] after[h].1.len() > 0 by {
        assert(before[h].1.len() > 0);
    }
    assert forall|h1: int, h2: int| 0 <= h1 < h2 < after.len() implies
        #[trigger] after[h1].1[0] < #[trigger] after[h2].1[0] by {
        assert(before[h1].1.len() > 0 && before[h2].1.len() > 0);
        assert(after[h1].1[0] == before[h1].1[0]);
        assert(after[h2].1[0] == before[h2].1[0]);
    }
}

proof fn lemma_group_new(
    ev: Seq<FieldErrorView>,
    i: usize,
    before: Seq<(Seq<char>, Seq<usize>)>,
    after: Seq<(Seq<char>, Seq<usize>)>,
)
    requires
        i < ev.len(),
        grouped_by_field(ev.subrange(0, i as int), before),
        forall|h: int| 0 <= h < before.len() ==> #[trigger] before[h].0 != ev[i as int].field,
        after == before.push((ev[i as int].field, seq![i])),
    ensures
        grouped_by_field(ev.subrange(0, i + 1), after),
{
    let pre = ev.subrange(0, i as int);
    let post = ev.subrange(0, i + 1);
    let n = before.len() as int;
    assert forall|h: int, k: int| 0 <= h < after.len() && 0 <= k < after[h].1.len() implies
        #[trigger] after[h].1[k] < post.len() && post[after[h].1[k] as int].field == after[h].0 by {
        if h < n {
            assert(after[h] == before[h]);
            assert(before[h].1[k] < pre.len());
            assert(post[before[h].1[k] as int] == pre[before[h].1[k] as int]);
        } else {
            assert(after[h].1 == seq![i]);
        }
    }
    assert forall|h: int, k1: int, k2: int| 0 <= h < after.len() && 0 <= k1 < k2 < after[h].1.len() implies
        #[trigger] after[h].1[k1] < #[trigger] after[h].1[k2] by {
        if h < n {
            assert(after[h] == before[h]);
        }
    }
    assert forall|j: int| 0 <= j < post.len() implies #[trigger] in_some_group(after, j) by {
        if j == i {
            assert(after[n].1 == seq![i]);
            assert(after[n].1[0] == j);
        } else {
            assert(0 <= j < pre.len());
            assert(in_some_group(before, j));
            let (h, k) = choose|h: int, k: int| 0 <= h < before.len() && 0 <= k < before[h].1.len() && #[trigger] before[h].1[k] == j;
            assert(after[h] == before[h]);
            assert(after[h].1[k] == j);
        }
    }
    assert forall|h1: int, h2: int| 0 <= h1 < after.len() && 0 <= h2 < after.len() && h1 != h2 implies
        #[trigger] after[h1].0 != #[trigger] after[h2].0 by {
        if h1 < n && h2 < n {
            assert(after[h1] == before[h1]);
            assert(after[h2] == before[h2]);
        } else if h1 < n {
            assert(after[h1] == before[h1]);
        } else {
            assert(after[h2] == before[h2]);
        }
    }
    assert forall|h: int| 0 <= h < after.len() implies #[trigger] after[h].1.len() > 0 by {
        if h < n {
            assert(after[h] == before[h]);
        }
    }
    assert forall|h1: int, h2: int| 0 <= h1 < h2 < after.len() implies
        #[trigger] after[h1].1[0] < #[trigger] after[h2].1[0] by {
        assert(after[h1] == before[h1]);
        assert(before[h1].1.len() > 0);
        assert(before[h1].1[0] < pre.len());
        if h2 < n {
            assert(after[h2] == before[h2]);
        }
    }
}

impl ValidationErrors {
    /// The failures gathered field by field (see [`grouped_by_field`]), as
    /// the error reply lists them.
    pub fn field_groups(&self) -> (r: Vec<FieldGroup>)
        ensures
            grouped_by_field(self@, groups_view(r@)),
    {
        let errs = &self.errors;
        let mut groups: Vec<FieldGroup> = Vec::new();
        let mut i: usize = 0;
        assert(groups_view(groups@) =~= Seq::<(Seq<char>, Seq<usize>)>::empty());
        while i < errs.len()
            invariant
                i <= errs.len(),
                grouped_by_field(errors_view(errs@).subrange(0, i as int), groups_view(groups@)),
            decreases errs.len() - i,
        {
            let ghost ev = errors_view(errs@);
            let ghost before = groups_view(groups@);
            let f = errs[i].field.as_str();
            assert(ev[i as int].field == f@);
            match find_group(&groups, f) {
                Some(g) => {
                    let errors = with_index(&groups[g].errors, i);
                    let field = text(groups[g].field.as_str());
                    groups.set(g, FieldGroup { field, errors });
                    proof {
                        assert(groups_view(groups@) =~= before.update(g as int, (before[g as int].0, before[g as int].1.push(i))));
                        lemma_group_extend(ev, i, before, groups_view(groups@), g as int);
                    }
                },
                None => {
                    let errors = with_index(&Vec::new(), i);
                    groups.push(FieldGroup { field: text(f), errors });
                    proof {
                        assert(errors@ =~= seq![i]);
                        assert(groups_view(groups@) =~= before.push((ev[i as int].field, seq![i])));
                        assert forall|h: int| 0 <= h < before.len() implies #[trigger] before[h].0 != ev[i as int].field by {
                            assert(before[h].0 == groups@[h].field@);
                        }
                        lemma_group_new(ev, i, before, groups_view(groups@));
                    }
                },
            }
            i = i + 1;
        }
        assert(errors_view(errs@).subrange(0, errs.len() as int) =~= errors_view(errs@));
        groups
    }
}

/// Outcome of validating a request: `Ok` exactly when no rule failed.
pub open spec fn outcome(errors: Seq<FieldErrorView>, r: Result<(), ValidationErrors>) -> bool {
    &&& (r is Ok <==> errors.len() == 0)
    &&& r matches Err(e) ==> e@ == errors
}

// ---- rules ----

/// Whether a text is an e-mail address, as `validator::validate_email` decides.
pub uninterp spec fn email_is_valid(s: Seq<char>) -> bool;

/// Whether a text is a phone number, as `validator::validate_phone` decides.
pub uninterp spec fn phone_is_valid(s: Seq<char>) -> bool;

/// Checks an e-mail address with `validator::validate_email` (HTML5 address
/// rules with IDN domains; the rules are not restated here).
#[verifier::external_body]
pub(crate) fn validate_email(s: &str) -> (r: bool)
    ensures
        r == email_is_valid(s@),
{
    validator::validate_email(s)
}

/// Checks a phone number with `validator::validate_phone` (parsing by the
/// phonenumber crate, which turns Unicode decimal digits into ASCII ones
/// before it slices; the rules are not restated here).
#[verifier::external_body]
pub(crate) fn validate_phone(s: &str) -> (r: bool)
    ensures
        r == phone_is_valid(s@),
{
    validator::validate_phone(s)
}

/// Length rule: with `equal` the length must be exactly that, otherwise it
/// must lie within the given bounds.
pub open spec fn length_ok(len: nat, min: Option<u64>, max: Option<u64>, equal: Option<u64>) -> bool {
    match equal {
        Some(e) => len == e,
        None => (min matches Some(m) ==> len >= m) && (max matches Some(m) ==> len <= m),
    }
}

/// Range rule on an integer.
pub open spec fn range_ok(v: int, min: Option<i64>, max: Option<i64>) -> bool {
    (max matches Some(m) ==> v <= m) && (min matches Some(m) ==> v >= m)
}

/// `required` failure.
pub open spec fn required_error(field: Seq<char>) -> FieldErrorView {
    FieldErrorView {
        field: field,
        code: "required"@,
        message: None,
        params: seq![("value"@, ParamView::Null)],
    }
}

/// `email` failure.
pub open spec fn email_error(field: Seq<char>, v: Seq<char>, msg: Seq<char>) -> FieldErrorView {
    FieldErrorView {
        field: field,
        code: "email"@,
        message: Some(msg),
        params: seq![("value"@, ParamView::Str(v))],
    }
}

/// `phone` failure.
pub open spec fn phone_error(field: Seq<char>, v: Seq<char>, msg: Seq<char>) -> FieldErrorView {
    FieldErrorView {
        field: field,
        code: "phone"@,
        message: Some(msg),
        params: seq![("value"@, ParamView::Str(v))],
    }
}

/// Parameter entry for an optional bound.
pub open spec fn bound_param(name: Seq<char>, b: Option<u64>) -> Seq<(Seq<char>, ParamView)> {
    match b {
        Some(x) => seq![(name, ParamView::Int(x as int))],
        None => Seq::empty(),
    }
}

/// `length` failure.
pub open spec fn length_error(
    field: Seq<char>,
    v: Seq<char>,
    min: Option<u64>,
    max: Option<u64>,
    equal: Option<u64>,
    msg: Seq<char>,
) -> FieldErrorView {
    FieldErrorView {
        field: field,
        code: "length"@,
        message: Some(msg),
        params: bound_param("min"@, min) + bound_param("max"@, max) + bound_param("equal"@, equal)
            + seq![("value"@, ParamView::Str(v))],
    }
}

/// `range` failure (no custom message).
pub open spec fn range_error(field: Seq<char>, v: int, min: Option<i64>, max: Option<i64>) -> FieldErrorView {
    FieldErrorView {
        field: field,
        code: "range"@,
        message: None,
        params: (match min {
            Some(m) => seq![("min"@, ParamView::WholeFloat(m as int))],
            None => Seq::empty(),
        }) + (match max {
            Some(m) => seq![("max"@, ParamView::WholeFloat(m as int))],
            None => Seq::empty(),
        }) + seq![("value"@, ParamView::Int(v))],
    }
}

/// Errors of an optional text field that is required and must be an e-mail
/// address.
pub open spec fn required_email_errors(field: Seq<char>, v: Option<Seq<char>>, msg: Seq<char>) -> Seq<FieldErrorView> {
    match v {
        None => seq![required_error(field)],
        Some(s) => if email_is_valid(s) { Seq::empty() } else { seq![email_error(field, s, msg)] },
    }
}

/// Errors of an optional text field that is required and has a length rule.
pub open spec fn required_length_errors(
    field: Seq<char>,
    v: Option<Seq<char>>,
    min: Option<u64>,
    max: Option<u64>,
    equal: Option<u64>,
    msg: Seq<char>,
) -> Seq<FieldErrorView> {
    match v {
        None => seq![required_error(field)],
        Some(s) => if length_ok(s.len(), min, max, equal) {
            Seq::empty()
        } else {
            seq![length_error(field, s, min, max, equal, msg)]
        },
    }
}

/// View of an optional string.
pub open spec fn opt_view(o: Option<String>) -> Option<Seq<char>> {
    match o {
        Some(s) => Some(s@),
        None => None,
    }
}

proof fn lemma_push_view(s: Seq<FieldError>, e: FieldError)
    ensures
        errors_view(s.push(e)) == errors_view(s).push(e@),
{
    assert(errors_view(s.push(e)) =~= errors_view(s).push(e@));
}

fn text(s: &str) -> (r: String)
    ensures
        r@ == s@,
{
    String::from_str(s)
}

fn push_error(errs: &mut Vec<FieldError>, e: FieldError)
    ensures
        errors_view(final(errs)@) == errors_view(old(errs)@).push(e@),
{
    proof {
        lemma_push_view(errs@, e);
    }
    errs.push(e);
}

/// Records a `required` failure.
pub fn push_required(errs: &mut Vec<FieldError>, field: &str)
    ensures
        errors_view(final(errs)@) == errors_view(old(errs)@).push(required_error(field@)),
{
    let mut params: Vec<(String, ParamValue)> = Vec::new();
    params.push((text("value"), ParamValue::Null));
    let e = FieldError { field: text(field), code: text("required"), message: None, params };
    assert(e@.params =~= seq![("value"@, ParamView::Null)]);
    push_error(errs, e);
}

/// Applies `required` and `email` to an optional field.
pub fn check_required_email(errs: &mut Vec<FieldError>, field: &str, v: &Option<String>, msg: &str)
    ensures
        errors_view(final(errs)@) == errors_view(old(errs)@) + required_email_errors(field@, opt_view(*v), msg@),
{
    match v {
        None => {
            push_required(errs, field);
        },
        Some(s) => {
            if !validate_email(s.as_str()) {
                let mut params: Vec<(String, ParamValue)> = Vec::new();
                params.push((text("value"), ParamValue::Str(s.clone())));
                let e = FieldError { field: text(field), code: text("email"), message: Some(text(msg)), params };
                assert(e@.params =~= seq![("value"@, ParamView::Str(s@))]);
                push_error(errs, e);
            }
        },
    }
    assert(errors_view(final(errs)@) =~= errors_view(old(errs)@) + required_email_errors(field@, opt_view(*v), msg@));
}

/// Applies `phone` to an optional field (absent values pass).
pub fn check_optional_phone(errs: &mut Vec<FieldError>, field: &str, v: &Option<String>, msg: &str)
    ensures
        errors_view(final(errs)@) == errors_view(old(errs)@) + match opt_view(*v) {
            Some(s) => if phone_is_valid(s) { Seq::empty() } else { seq![phone_error(field@, s, msg@)] },
            None => Seq::empty(),
        },
{
    match v {
        None => {},
        Some(s) => {
            if !validate_phone(s.as_str()) {
                let mut params: Vec<(String, ParamValue)> = Vec::new();
                params.push((text("value"), ParamValue::Str(s.clone())));
                let e = FieldError { field: text(field), code: text("phone"), message: Some(text(msg)), params };
                assert(e@.params =~= seq![("value"@, ParamView::Str(s@))]);
                push_error(errs, e);
            }
        },
    }
    assert(errors_view(final(errs)@) =~= errors_view(old(errs)@) + match opt_view(*v) {
        Some(s) => if phone_is_valid(s) { Seq::empty() } else { seq![phone_error(field@, s, msg@)] },
        None => Seq::empty(),
    });
}

fn push_bound(params: &mut Vec<(String, ParamValue)>, name: &str, b: Option<u64>)
    requires
        b matches Some(x) ==> x <= i64::MAX,
    ensures
        final(params)@.map_values(|p: (String, ParamValue)| (p.0@, p.1@))
            == old(params)@.map_values(|p: (String, ParamValue)| (p.0@, p.1@)) + bound_param(name@, b),
{
    match b {
        Some(x) => {
            params.push((text(name), ParamValue::Int(x as i64)));
        },
        None => {},
    }
    assert(final(params)@.map_values(|p: (String, ParamValue)| (p.0@, p.1@))
        =~= old(params)@.map_values(|p: (String, ParamValue)| (p.0@, p.1@)) + bound_param(name@, b));
}

/// Whether a text length satisfies a length rule (`validator::validate_length`
/// on the character count).
pub fn length_within(s: &str, min: Option<u64>, max: Option<u64>, equal: Option<u64>) -> (r: bool)
    ensures
        r == length_ok(s@.len(), min, max, equal),
{
    let n = s.unicode_len() as u64;
    match equal {
        Some(e) => n == e,
        None => {
            let lo = match min {
                Some(m) => n >= m,
                None => true,
            };
            let hi = match max {
                Some(m) => n <= m,
                None => true,
            };
            lo && hi
        },
    }
}

/// Applies `required` and `length` to an optional field.
pub fn check_required_length(
    errs: &mut Vec<FieldError>,
    field: &str,
    v: &Option<String>,
    min: Option<u64>,
    max: Option<u64>,
    equal: Option<u64>,
    msg: &str,
)
    requires
        min matches Some(x) ==> x <= i64::MAX,
        max matches Some(x) ==> x <= i64::MAX,
        equal matches Some(x) ==> x <= i64::MAX,
    ensures
        errors_view(final(errs)@) == errors_view(old(errs)@)
            + required_length_errors(field@, opt_view(*v), min, max, equal, msg@),
{
    match v {
        None => {
            push_required(errs, field);
        },
        Some(s) => {
            if !length_within(s.as_str(), min, max, equal) {
                let mut params: Vec<(String, ParamValue)> = Vec::new();
                push_bound(&mut params, "min", min);
                push_bound(&mut params, "max", max);
                push_bound(&mut params, "equal", equal);
                let ghost before = params@;
                params.push((text("value"), ParamValue::Str(s.clone())));
                let e = FieldError { field: text(field), code: text("length"), message: Some(text(msg)), params };
                assert(e@.params =~= bound_param("min"@, min) + bound_param("max"@, max) + bound_param("equal"@, equal)
                    + seq![("value"@, ParamView::Str(s@))]);
                push_error(errs, e);
            }
        },
    }
    assert(errors_view(final(errs)@) =~= errors_view(old(errs)@)
        + required_length_errors(field@, opt_view(*v), min, max, equal, msg@));
}

/// Applies `range` to an integer field.
pub fn check_range(errs: &mut Vec<FieldError>, field: &str, v: i64, min: Option<i64>, max: Option<i64>)
    ensures
        errors_view(final(errs)@) == errors_view(old(errs)@) + if range_ok(v as int, min, max) {
            Seq::<FieldErrorView>::empty()
        } else {
            seq![range_error(field@, v as int, min, max)]
        },
{
    let ok_max = match max {
        Some(m) => v <= m,
        None => true,
    };
    let ok_min = match min {
        Some(m) => v >= m,
        None => true,
    };
    if !(ok_max && ok_min) {
        let mut params: Vec<(String, ParamValue)> = Vec::new();
        match min {
            Some(m) => {
                params.push((text("min"), ParamValue::WholeFloat(m)));
            },
            None => {},
        }
        match max {
            Some(m) => {
                params.push((text("max"), ParamValue::WholeFloat(m)));
            },
            None => {},
        }
        params.push((text("value"), ParamValue::Int(v)));
        let e = FieldError { field: text(field), code: text("range"), message: None, params };
        assert(e@.params =~= (match min {
            Some(m) => seq![("min"@, ParamView::WholeFloat(m as int))],
            None => Seq::empty(),
        }) + (match max {
            Some(m) => seq![("max"@, ParamView::WholeFloat(m as int))],
            None => Seq::empty(),
        }) + seq![("value"@, ParamView::Int(v as int))]);
        push_error(errs, e);
    }
    assert(errors_view(final(errs)@) =~= errors_view(old(errs)@) + if range_ok(v as int, min, max) {
        Seq::<FieldErrorView>::empty()
    } else {
        seq![range_error(field@, v as int, min, max)]
    });
}

/// Turns the collected failures into the validation outcome.
pub fn finish(errs: Vec<FieldError>) -> (r: Result<(), ValidationErrors>)
    ensures
        outcome(errors_view(errs@), r),
{
    if errs.len() == 0 {
        Ok(())
    } else {
        Err(ValidationErrors { errors: errs })
    }
}

} // verus!
