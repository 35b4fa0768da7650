//! What the identities of a comparison tell apart.

use crate::fragments::{
    collide, lacks, law_identities_cover_fragments, lemma_both_lack, lemma_decimal_digits, lemma_first_part,
    lemma_joined_first, lemma_one_identity, lemma_signed_decimal_determines_value, unmarked_but,
};
use crate::replacement::value::ReplacementValue;
use crate::selection::fragments_identity;
use crate::shadow::comparison::REPLACEMENT_FAILURE_IDENTITY_TAG;
use crate::shadow::observation::{
    legacy_identity, rendered, LegacyExecutionAuthority, ObservableModel, LEGACY_OUTPUT_IDENTITY_TAG,
};
use crate::shadow::profile::{
    arguments_text, control, escaped, instance_identity, law_literals_stay_on_one_line, literal, literals, spelled,
    ShadowComparisonProfile,
};
use crate::shadow::SHADOW_COMPARISON_PROFILE_ID;
use crate::text::{decimal, joined};
use vstd::prelude::*;

verus! {

broadcast use vstd::string::group_string_axioms;

// ---------------------------------------------------------------------------
// Argument lists
// ---------------------------------------------------------------------------

/// Whether every argument has a source literal.
pub open spec fn representable(values: Seq<ReplacementValue>) -> bool {
    forall|i: int| 0 <= i < values.len() ==> literal(#[trigger] values[i]) is Ok
}

/// The source literals of arguments that all have one.
pub open spec fn spellings(values: Seq<ReplacementValue>) -> Seq<Seq<char>> {
    Seq::new(values.len(), |i: int| literal(values[i])->Ok_0)
}

proof fn lemma_literals(values: Seq<ReplacementValue>, from: int, done: Seq<Seq<char>>)
    requires
        0 <= from <= values.len(),
    ensures
        literals(values, from, done) is Ok <==> representable(values.skip(from)),
        representable(values.skip(from)) ==> literals(values, from, done) == Ok::<Seq<Seq<char>>, Seq<char>>(
            done + spellings(values.skip(from)),
        ),
    decreases values.len() - from,
{
    let rest = values.skip(from);
    if from < values.len() {
        assert(rest[0] == values[from]);
        assert(rest.drop_first() =~= values.skip(from + 1));
        assert forall|i: int| 0 <= i < rest.drop_first().len() implies rest.drop_first()[i] == rest[i + 1] by {}
        match literal(values[from]) {
            Ok(text) => {
                lemma_literals(values, from + 1, done.push(text));
                if representable(rest.drop_first()) {
                    assert forall|i: int| 0 <= i < rest.len() implies literal(#[trigger] rest[i]) is Ok by {
                        if i > 0 {
                            assert(rest.drop_first()[i - 1] == rest[i]);
                        }
                    }
                    assert(done.push(text) + spellings(rest.drop_first()) =~= done + spellings(rest));
                } else {
                    let i = choose|i: int| 0 <= i < rest.drop_first().len() && !(literal(rest.drop_first()[i]) is Ok);
                    assert(rest[i + 1] == rest.drop_first()[i]);
                }
            },
            Err(_) => {},
        }
    } else {
        assert(done + spellings(rest) =~= done);
    }
}

/// Whether a text is empty or begins with a comma.
spec fn continues(text: Seq<char>) -> bool {
    text.len() == 0 || text[0] == ','
}

proof fn lemma_escaped_until_quote(a: Seq<char>, x: Seq<char>, b: Seq<char>, y: Seq<char>)
    requires
        escaped(a) + seq!['"'] + x == escaped(b) + seq!['"'] + y,
    ensures
        a == b,
        x == y,
    decreases a.len(),
{
    let left = escaped(a) + seq!['"'] + x;
    let right = escaped(b) + seq!['"'] + y;
    if a.len() == 0 && b.len() == 0 {
        assert(a =~= b);
        assert(x =~= left.skip(1));
        assert(y =~= right.skip(1));
    } else if a.len() == 0 {
        assert(left[0] == '"');
        assert(right[0] == spelled(b[0])[0]);
    } else if b.len() == 0 {
        assert(right[0] == '"');
        assert(left[0] == spelled(a[0])[0]);
    } else {
        let s = spelled(a[0]);
        let t = spelled(b[0]);
        let p = escaped(a.drop_first()) + seq!['"'] + x;
        let q = escaped(b.drop_first()) + seq!['"'] + y;
        assert(left =~= s + p);
        assert(right =~= t + q);
        assert(left[0] == s[0]);
        assert(right[0] == t[0]);
        if s[0] == '\\' {
            assert(left[1] == s[1]);
            assert(right[1] == t[1]);
        }
        assert(a[0] == b[0]);
        assert(p =~= left.skip(s.len() as int));
        assert(q =~= right.skip(t.len() as int));
        lemma_escaped_until_quote(a.drop_first(), x, b.drop_first(), y);
        assert(a =~= seq![a[0]] + a.drop_first());
        assert(b =~= seq![b[0]] + b.drop_first());
    }
}

proof fn lemma_quoted(text: Seq<char>, rest: Seq<char>)
    ensures
        "\""@ + escaped(text) + "\""@ + rest == seq!['"'] + (escaped(text) + seq!['"'] + rest),
{
    reveal_strlit("\"");
    assert("\""@ =~= seq!['"']);
    assert("\""@ + escaped(text) + "\""@ + rest =~= seq!['"'] + (escaped(text) + seq!['"'] + rest));
}

/// How a literal begins, and that only a string literal can hold a comma.
proof fn lemma_literal_shape(value: ReplacementValue)
    requires
        literal(value) is Ok,
    ensures
        literal(value)->Ok_0.len() > 0,
        match value {
            ReplacementValue::Str(_) => literal(value)->Ok_0[0] == '"',
            ReplacementValue::Bool(flag) => {
                &&& literal(value)->Ok_0[0] == if flag {
                    't'
                } else {
                    'f'
                }
                &&& lacks(literal(value)->Ok_0, ',')
            },
            _ => {
                &&& value is Int
                &&& (literal(value)->Ok_0[0] == '-' || 48 <= (literal(value)->Ok_0[0] as int) <= 57)
                &&& lacks(literal(value)->Ok_0, ',')
            },
        },
{
    let text = literal(value)->Ok_0;
    match value {
        ReplacementValue::Int(number) => {
            let digits = decimal(if number < 0 { -(number as int) } else { number as int } as nat);
            lemma_decimal_digits(if number < 0 { -(number as int) } else { number as int } as nat);
            assert forall|i: int| 0 <= i < text.len() implies text[i] != ',' by {
                if number < 0 {
                    if i > 0 {
                        assert(text[i] == digits[i - 1]);
                    }
                } else {
                    assert(text[i] == digits[i]);
                }
            }
        },
        ReplacementValue::Bool(_) => {
            reveal_strlit("true");
            reveal_strlit("false");
        },
        ReplacementValue::Str(string) => {
            lemma_quoted(string@, Seq::empty());
            assert(text =~= "\""@ + escaped(string@) + "\""@ + Seq::<char>::empty());
        },
        _ => {},
    }
}

/// A literal in front of what may follow one is determined, and so is what follows it.
proof fn lemma_first_literal(v: ReplacementValue, x: Seq<char>, w: ReplacementValue, y: Seq<char>)
    requires
        literal(v) is Ok,
        literal(w) is Ok,
        continues(x),
        continues(y),
        literal(v)->Ok_0 + x == literal(w)->Ok_0 + y,
    ensures
        v.model() == w.model(),
        x == y,
{
    let a = literal(v)->Ok_0;
    let b = literal(w)->Ok_0;
    lemma_literal_shape(v);
    lemma_literal_shape(w);
    assert((a + x)[0] == a[0]);
    assert((b + y)[0] == b[0]);
    match (v, w) {
        (ReplacementValue::Str(s), ReplacementValue::Str(t)) => {
            lemma_quoted(s@, x);
            lemma_quoted(t@, y);
            let p = escaped(s@) + seq!['"'] + x;
            let q = escaped(t@) + seq!['"'] + y;
            assert(p =~= (a + x).skip(1));
            assert(q =~= (b + y).skip(1));
            lemma_escaped_until_quote(s@, x, t@, y);
        },
        (ReplacementValue::Str(_), _) => {},
        (_, ReplacementValue::Str(_)) => {},
        _ => {
            if a.len() < b.len() {
                assert(x.len() > 0);
                assert((a + x)[a.len() as int] == ',');
                assert((b + y)[a.len() as int] == b[a.len() as int]);
                assert(b.contains(','));
            } else if b.len() < a.len() {
                assert(y.len() > 0);
                assert((b + y)[b.len() as int] == ',');
                assert((a + x)[b.len() as int] == a[b.len() as int]);
                assert(a.contains(','));
            }
            assert(a =~= (a + x).take(a.len() as int));
            assert(b =~= (b + y).take(b.len() as int));
            assert(x =~= (a + x).skip(a.len() as int));
            assert(y =~= (b + y).skip(b.len() as int));
            match (v, w) {
                (ReplacementValue::Int(i), ReplacementValue::Int(j)) => {
                    lemma_signed_decimal_determines_value(i as int, j as int);
                },
                _ => {},
            }
        },
    }
}

/// Argument lists with one spelling are the same arguments.
pub proof fn law_argument_lists_are_distinct(a: Seq<ReplacementValue>, b: Seq<ReplacementValue>)
    requires
        representable(a),
        representable(b),
        joined(spellings(a), ", "@) == joined(spellings(b), ", "@),
    ensures
        a.len() == b.len(),
        forall|i: int| 0 <= i < a.len() ==> (#[trigger] a[i]).model() == b[i].model(),
    decreases a.len(),
{
    reveal_strlit(", ");
    let comma = ", "@;
    let p = spellings(a);
    let q = spellings(b);
    if a.len() > 0 {
        lemma_literal_shape(a[0]);
        assert(p[0] == literal(a[0])->Ok_0);
    }
    if b.len() > 0 {
        lemma_literal_shape(b[0]);
        assert(q[0] == literal(b[0])->Ok_0);
    }
    let x = if a.len() > 1 {
        comma + joined(p.drop_first(), comma)
    } else {
        Seq::empty()
    };
    let y = if b.len() > 1 {
        comma + joined(q.drop_first(), comma)
    } else {
        Seq::empty()
    };
    if a.len() > 1 {
        lemma_joined_first(p, comma);
        assert(joined(p, comma) =~= p[0] + x);
    } else if a.len() == 1 {
        assert(joined(p, comma) =~= p[0] + x);
    }
    if b.len() > 1 {
        lemma_joined_first(q, comma);
        assert(joined(q, comma) =~= q[0] + y);
    } else if b.len() == 1 {
        assert(joined(q, comma) =~= q[0] + y);
    }
    if a.len() > 0 && b.len() > 0 {
        lemma_first_literal(a[0], x, b[0], y);
        if a.len() > 1 {
            assert(x.len() > 0);
            assert(y.len() > 0);
            assert(joined(p.drop_first(), comma) =~= x.skip(2));
            assert(joined(q.drop_first(), comma) =~= y.skip(2));
            let c = a.drop_first();
            let d = b.drop_first();
            assert(spellings(c) =~= p.drop_first());
            assert(spellings(d) =~= q.drop_first());
            law_argument_lists_are_distinct(c, d);
            assert forall|i: int| 0 <= i < a.len() implies (#[trigger] a[i]).model() == b[i].model() by {
                if i > 0 {
                    assert(c[i - 1] == a[i]);
                    assert(d[i - 1] == b[i]);
                }
            }
        } else {
            assert(y.len() == 0);
        }
    }
}

// ---------------------------------------------------------------------------
// Profiles
// ---------------------------------------------------------------------------

proof fn lemma_literal_is_unmarked(value: ReplacementValue)
    requires
        literal(value) is Ok,
    ensures
        lacks(literal(value)->Ok_0, '\u{1}'),
{
    let text = literal(value)->Ok_0;
    match value {
        ReplacementValue::Int(number) => {
            let digits = decimal(if number < 0 { -(number as int) } else { number as int } as nat);
            lemma_decimal_digits(if number < 0 { -(number as int) } else { number as int } as nat);
            assert forall|i: int| 0 <= i < text.len() implies text[i] != '\u{1}' by {
                if number < 0 {
                    if i > 0 {
                        assert(text[i] == digits[i - 1]);
                    }
                } else {
                    assert(text[i] == digits[i]);
                }
            }
        },
        ReplacementValue::Bool(_) => {
            reveal_strlit("true");
            reveal_strlit("false");
        },
        ReplacementValue::Str(string) => {
            law_literals_stay_on_one_line(string@);
            assert(lacks(escaped(string@), '\u{1}')) by {
                if escaped(string@).contains('\u{1}') {
                    let i = choose|i: int| 0 <= i < escaped(string@).len() && escaped(string@)[i] == '\u{1}';
                    assert(control(escaped(string@)[i]));
                }
            }
            reveal_strlit("\"");
            lemma_both_lack("\""@, escaped(string@), '\u{1}');
            lemma_both_lack("\""@ + escaped(string@), "\""@, '\u{1}');
        },
        _ => {},
    }
}

proof fn lemma_joined_lacks(parts: Seq<Seq<char>>, separator: Seq<char>, mark: char)
    requires
        forall|i: int| 0 <= i < parts.len() ==> lacks(#[trigger] parts[i], mark),
        lacks(separator, mark),
    ensures
        lacks(joined(parts, separator), mark),
    decreases parts.len(),
{
    if parts.len() > 1 {
        assert forall|i: int| 0 <= i < parts.drop_last().len() implies lacks(#[trigger] parts.drop_last()[i], mark) by {
            assert(parts.drop_last()[i] == parts[i]);
        }
        lemma_joined_lacks(parts.drop_last(), separator, mark);
        lemma_both_lack(joined(parts.drop_last(), separator), separator, mark);
        lemma_both_lack(joined(parts.drop_last(), separator) + separator, parts.last(), mark);
    }
}

proof fn lemma_arguments_text(values: Seq<ReplacementValue>)
    ensures
        lacks(arguments_text(values), '\u{1}'),
        representable(values) ==> arguments_text(values) == joined(spellings(values), ", "@),
        !representable(values) ==> arguments_text(values) == "<unrepresentable arguments>"@,
{
    lemma_literals(values, 0, Seq::empty());
    assert(values.skip(0) =~= values);
    if representable(values) {
        assert(Seq::<Seq<char>>::empty() + spellings(values) =~= spellings(values));
        assert forall|i: int| 0 <= i < spellings(values).len() implies lacks(
            #[trigger] spellings(values)[i],
            '\u{1}',
        ) by {
            lemma_literal_is_unmarked(values[i]);
        }
        reveal_strlit(", ");
        lemma_joined_lacks(spellings(values), ", "@, '\u{1}');
    } else {
        reveal_strlit("<unrepresentable arguments>");
    }
}

/// The marker of arguments without a spelling is the spelling of no arguments.
proof fn lemma_marker_is_no_spelling(values: Seq<ReplacementValue>)
    requires
        representable(values),
    ensures
        joined(spellings(values), ", "@) != "<unrepresentable arguments>"@,
{
    reveal_strlit("<unrepresentable arguments>");
    let p = spellings(values);
    if values.len() > 0 {
        lemma_literal_shape(values[0]);
        assert(p[0] == literal(values[0])->Ok_0);
        if values.len() > 1 {
            lemma_joined_first(p, ", "@);
        }
        assert(joined(p, ", "@)[0] == p[0][0]);
    }
}

/// Whether two profile instances make the same claim.
pub open spec fn same_claim(p: ShadowComparisonProfile, q: ShadowComparisonProfile) -> bool {
    &&& p.source@ == q.source@
    &&& p.function@ == q.function@
    &&& representable(p.arguments@) == representable(q.arguments@)
    &&& representable(p.arguments@) ==> p.arguments@.len() == q.arguments@.len() && forall|i: int|
        0 <= i < p.arguments@.len() ==> (#[trigger] p.arguments@[i]).model() == q.arguments@[i].model()
}

/// The fragments that the identity of a profile instance covers.
pub open spec fn profile_fragments(profile: ShadowComparisonProfile) -> Seq<Seq<char>> {
    seq![
        SHADOW_COMPARISON_PROFILE_ID@,
        profile.source@,
        profile.function@,
        arguments_text(profile.arguments@),
    ]
}

/// Comparisons of different sources, functions or arguments do not share an identity, unless they collide. Arguments
/// without a spelling are told apart from those with one.
pub proof fn law_profiles_are_distinct(p: ShadowComparisonProfile, q: ShadowComparisonProfile)
    requires
        instance_identity(p) == instance_identity(q),
        lacks(p.function@, '\u{1}'),
        lacks(q.function@, '\u{1}'),
    ensures
        same_claim(p, q) || collide(joined(profile_fragments(p), "\u{1}"@), joined(profile_fragments(q), "\u{1}"@)),
{
    let a = profile_fragments(p);
    let b = profile_fragments(q);
    lemma_arguments_text(p.arguments@);
    lemma_arguments_text(q.arguments@);
    reveal_strlit("incan.shadow_comparison.direct_scalar_free_function.v0");
    assert(unmarked_but(a, 1));
    assert(unmarked_but(b, 1));
    law_identities_cover_fragments(a, b, 1);
    if a == b {
        assert(a[1] == b[1] && a[2] == b[2] && a[3] == b[3]);
        if representable(p.arguments@) && representable(q.arguments@) {
            law_argument_lists_are_distinct(p.arguments@, q.arguments@);
        } else if representable(p.arguments@) {
            lemma_marker_is_no_spelling(p.arguments@);
        } else if representable(q.arguments@) {
            lemma_marker_is_no_spelling(q.arguments@);
        }
    }
}

// ---------------------------------------------------------------------------
// Outputs
// ---------------------------------------------------------------------------

/// Whether no identity of an authority holds the mark.
pub open spec fn unmarked_authority(authority: LegacyExecutionAuthority) -> bool {
    &&& lacks(authority.oven_receipt_identity@, '\u{1}')
    &&& lacks(authority.oven_build_unit_identity@, '\u{1}')
    &&& lacks(authority.direct_rustc_plan_identity@, '\u{1}')
    &&& lacks(authority.output_digest@, '\u{1}')
}

/// The fragments that the identity of a legacy observation covers.
pub open spec fn legacy_fragments(authority: LegacyExecutionAuthority, observable: ObservableModel) -> Seq<Seq<char>> {
    seq![
        LEGACY_OUTPUT_IDENTITY_TAG@,
        authority.oven_receipt_identity@,
        authority.oven_build_unit_identity@,
        authority.direct_rustc_plan_identity@,
        authority.output_digest@,
        rendered(observable),
    ]
}

/// What a legacy process showed under one authority does not share an identity with what one showed under another, or
/// with something else that it showed, unless they collide.
pub proof fn law_legacy_identities_cover_their_authority(
    a: LegacyExecutionAuthority,
    x: ObservableModel,
    b: LegacyExecutionAuthority,
    y: ObservableModel,
)
    requires
        legacy_identity(a, x) == legacy_identity(b, y),
        unmarked_authority(a),
        unmarked_authority(b),
    ensures
        ({
            &&& a.oven_receipt_identity@ == b.oven_receipt_identity@
            &&& a.oven_build_unit_identity@ == b.oven_build_unit_identity@
            &&& a.direct_rustc_plan_identity@ == b.direct_rustc_plan_identity@
            &&& a.output_digest@ == b.output_digest@
            &&& rendered(x) == rendered(y)
        }) || collide(joined(legacy_fragments(a, x), "\u{1}"@), joined(legacy_fragments(b, y), "\u{1}"@)),
{
    let p = legacy_fragments(a, x);
    let q = legacy_fragments(b, y);
    reveal_strlit("incan.shadow_comparison.legacy_process_observation.v0");
    assert(unmarked_but(p, 5));
    assert(unmarked_but(q, 5));
    law_identities_cover_fragments(p, q, 5);
    if p == q {
        assert(p[1] == q[1] && p[2] == q[2] && p[3] == q[3] && p[4] == q[4] && p[5] == q[5]);
    }
}

/// What a legacy process showed does not share an identity with a failed direct execution, unless they collide.
pub proof fn law_routes_share_no_failure_identity(
    authority: LegacyExecutionAuthority,
    observable: ObservableModel,
    detail: Seq<char>,
)
    requires
        legacy_identity(authority, observable) == fragments_identity(seq![REPLACEMENT_FAILURE_IDENTITY_TAG@, detail]),
    ensures
        collide(
            joined(legacy_fragments(authority, observable), "\u{1}"@),
            joined(seq![REPLACEMENT_FAILURE_IDENTITY_TAG@, detail], "\u{1}"@),
        ),
{
    let p = legacy_fragments(authority, observable);
    let q = seq![REPLACEMENT_FAILURE_IDENTITY_TAG@, detail];
    let mark = "\u{1}"@;
    reveal_strlit("incan.shadow_comparison.legacy_process_observation.v0");
    reveal_strlit("incan.shadow_comparison.replacement_failure.v0");
    reveal_strlit("\u{1}");
    assert(mark =~= seq!['\u{1}']);
    lemma_one_identity(joined(p, mark), joined(q, mark));
    if joined(p, mark) == joined(q, mark) {
        lemma_joined_first(p, mark);
        lemma_joined_first(q, mark);
        lemma_first_part(p[0], joined(p.drop_first(), mark), q[0], joined(q.drop_first(), mark), '\u{1}');
        assert(p[0].len() != q[0].len());
    }
}

} // verus!
