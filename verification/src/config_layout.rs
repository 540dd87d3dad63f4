//! How a configuration file may be spelled, and the proof that every such
//! spelling is read as the configuration it spells: the three members in any
//! order, white space wherever the grammar allows it, each number in base ten
//! without a leading zero.

use vstd::prelude::*;
use crate::config::TypeConfigView;
use crate::config_file::{
    byte_at, decimal, digits_end, document, is_digit, is_space, key_at, member_after, member_at,
    name_at, number_at, skip_spaces, text_at, value_of, Field, Member,
};

verus! {

/// Nothing but white space.
pub open spec fn all_space(gap: Seq<u8>) -> bool {
    forall|i: int| 0 <= i < gap.len() ==> is_space(#[trigger] gap[i])
}

/// The digits of a number in base ten, without a leading zero.
pub open spec fn digits(n: nat) -> Seq<u8>
    decreases n,
{
    if n < 10 {
        seq![(0x30 + n) as u8]
    } else {
        digits(n / 10) + seq![(0x30 + n % 10) as u8]
    }
}

/// The text as bytes, one for each of its characters.
pub open spec fn bytes_of(text: Seq<char>) -> Seq<u8> {
    Seq::new(text.len(), |k: int| text[k] as u8)
}

/// A member spelled out: the name in double quotes, a colon, the value,
/// with the given white space before and behind the colon.
#[verifier::opaque]
pub open spec fn spelled_member(field: Field, value: u32, before: Seq<u8>, behind: Seq<u8>) -> Seq<
    u8,
> {
    seq![0x22u8] + bytes_of(field.spec_name()) + seq![0x22u8] + before + seq![0x3au8] + behind
        + digits(value as nat)
}

/// The value that a configuration gives to a member.
pub open spec fn member_value(config: TypeConfigView, field: Field) -> nat {
    match field {
        Field::MinDelay => config.min_delay,
        Field::MaxDelay => config.max_delay,
        Field::ErrorRate => config.error_rate,
    }
}

/// The white space of a spelling: around the braces and the commas, and
/// around the colon of each member.
pub struct Gaps {
    pub lead: Seq<u8>,
    pub open: Seq<u8>,
    pub first: (Seq<u8>, Seq<u8>),
    pub comma: (Seq<u8>, Seq<u8>),
    pub second: (Seq<u8>, Seq<u8>),
    pub other_comma: (Seq<u8>, Seq<u8>),
    pub third: (Seq<u8>, Seq<u8>),
    pub close: Seq<u8>,
    pub trail: Seq<u8>,
}

impl Gaps {
    /// Every gap holds nothing but white space.
    pub open spec fn blank(self) -> bool {
        &&& all_space(self.lead)
        &&& all_space(self.open)
        &&& all_space(self.first.0)
        &&& all_space(self.first.1)
        &&& all_space(self.comma.0)
        &&& all_space(self.comma.1)
        &&& all_space(self.second.0)
        &&& all_space(self.second.1)
        &&& all_space(self.other_comma.0)
        &&& all_space(self.other_comma.1)
        &&& all_space(self.third.0)
        &&& all_space(self.third.1)
        &&& all_space(self.close)
        &&& all_space(self.trail)
    }
}

/// A member of the given configuration, behind the byte that opens it.
pub open spec fn spelled_part(
    config: TypeConfigView,
    field: Field,
    lead: Seq<u8>,
    open: u8,
    gap: Seq<u8>,
    colon: (Seq<u8>, Seq<u8>),
) -> Seq<u8> {
    lead + seq![open] + gap + spelled_member(
        field,
        member_value(config, field) as u32,
        colon.0,
        colon.1,
    )
}

/// The file that spells a configuration with its members in the given order
/// and the given white space.
pub open spec fn spelled(config: TypeConfigView, order: (Field, Field, Field), gaps: Gaps) -> Seq<
    u8,
> {
    spelled_part(config, order.0, gaps.lead, 0x7b, gaps.open, gaps.first) + spelled_part(
        config,
        order.1,
        gaps.comma.0,
        0x2c,
        gaps.comma.1,
        gaps.second,
    ) + spelled_part(config, order.2, gaps.other_comma.0, 0x2c, gaps.other_comma.1, gaps.third)
        + gaps.close + seq![0x7du8] + gaps.trail
}

/// A run of white space is skipped up to the first byte behind it.
pub proof fn lemma_skip_gap(pre: Seq<u8>, gap: Seq<u8>, rest: Seq<u8>)
    requires
        all_space(gap),
        rest.len() == 0 || !is_space(rest[0]),
    ensures
        skip_spaces(pre + gap + rest, pre.len() as int) == pre.len() + gap.len(),
    decreases gap.len(),
{
    let s = pre + gap + rest;
    if gap.len() == 0 {
        if rest.len() > 0 {
            assert(s[pre.len() as int] == rest[0]);
        }
    } else {
        assert(s[pre.len() as int] == gap[0]);
        let more = pre + seq![gap[0]];
        assert(all_space(gap.drop_first())) by {
            assert forall|i: int| 0 <= i < gap.drop_first().len() implies is_space(
                #[trigger] gap.drop_first()[i],
            ) by {
                assert(gap.drop_first()[i] == gap[i + 1]);
            }
        }
        lemma_skip_gap(more, gap.drop_first(), rest);
        assert(more + gap.drop_first() + rest =~= s);
    }
}

/// The digits of a number are digits, at least one, and the first is a zero
/// only if it is the only one.
pub proof fn lemma_digits_shape(n: nat)
    ensures
        digits(n).len() >= 1,
        forall|i: int| 0 <= i < digits(n).len() ==> is_digit(#[trigger] digits(n)[i]),
        digits(n)[0] == 0x30 ==> digits(n).len() == 1,
    decreases n,
{
    if n >= 10 {
        lemma_digits_shape(n / 10);
        let front = digits(n / 10);
        let all = digits(n);
        assert(all == front + seq![(0x30 + n % 10) as u8]);
        assert forall|i: int| 0 <= i < all.len() implies is_digit(#[trigger] all[i]) by {
            if i < front.len() {
                assert(all[i] == front[i]);
            }
        }
        assert(all[0] == front[0]);
        if front[0] == 0x30 {
            assert(front.len() == 1);
            assert(front[0] == (0x30 + n / 10) as u8 || n / 10 >= 10);
            assert(n / 10 < 10) by {
                if n / 10 >= 10 {
                    lemma_digits_shape(n / 10 / 10);
                    assert(digits(n / 10).len() >= 2);
                }
            }
            assert(false);
        }
    }
}

/// The digits of a number write that number.
pub proof fn lemma_digits_value(pre: Seq<u8>, n: nat, rest: Seq<u8>)
    ensures
        decimal(
            pre + digits(n) + rest,
            pre.len() as int,
            (pre.len() + digits(n).len()) as int,
        ) == n,
    decreases n,
{
    let s = pre + digits(n) + rest;
    let i = pre.len() as int;
    let j = (pre.len() + digits(n).len()) as int;
    lemma_digits_shape(n);
    if n < 10 {
        assert(s[i] == (0x30 + n) as u8);
        assert(decimal(s, i, i) == 0);
        assert(decimal(s, i, i + 1) == decimal(s, i, i) * 10 + (s[i] - 0x30) as nat);
    } else {
        let front = digits(n / 10);
        let last = seq![(0x30 + n % 10) as u8];
        lemma_digits_value(pre, n / 10, last + rest);
        assert(pre + front + (last + rest) =~= s);
        assert(s[j - 1] == (0x30 + n % 10) as u8);
        assert(j - 1 == pre.len() + front.len());
    }
}

/// A run of digits ends at the first byte behind it.
pub proof fn lemma_digits_run(pre: Seq<u8>, run: Seq<u8>, rest: Seq<u8>)
    requires
        forall|i: int| 0 <= i < run.len() ==> is_digit(#[trigger] run[i]),
        rest.len() == 0 || !is_digit(rest[0]),
    ensures
        digits_end(pre + run + rest, pre.len() as int) == pre.len() + run.len(),
    decreases run.len(),
{
    let s = pre + run + rest;
    if run.len() == 0 {
        if rest.len() > 0 {
            assert(s[pre.len() as int] == rest[0]);
        }
    } else {
        assert(s[pre.len() as int] == run[0]);
        let more = pre + seq![run[0]];
        assert forall|i: int| 0 <= i < run.drop_first().len() implies is_digit(
            #[trigger] run.drop_first()[i],
        ) by {
            assert(run.drop_first()[i] == run[i + 1]);
        }
        lemma_digits_run(more, run.drop_first(), rest);
        assert(more + run.drop_first() + rest =~= s);
    }
}

/// The digits of a number that fits 32 bits are read as that number.
pub proof fn lemma_number_is_read(pre: Seq<u8>, value: u32, rest: Seq<u8>)
    requires
        rest.len() == 0 || !is_digit(rest[0]),
    ensures
        number_at(pre + digits(value as nat) + rest, pre.len() as int) == Some(
            (value, (pre.len() + digits(value as nat).len()) as int),
        ),
{
    let run = digits(value as nat);
    let s = pre + run + rest;
    lemma_digits_shape(value as nat);
    lemma_digits_run(pre, run, rest);
    lemma_digits_value(pre, value as nat, rest);
    assert(s[pre.len() as int] == run[0]);
}

/// A member's name in double quotes.
pub open spec fn quoted(field: Field) -> Seq<u8> {
    seq![0x22u8] + bytes_of(field.spec_name()) + seq![0x22u8]
}

/// A quoted name is read as the member it names.
pub proof fn lemma_name_is_read(pre: Seq<u8>, field: Field, rest: Seq<u8>)
    ensures
        key_at(pre + quoted(field) + rest, pre.len() as int) == Some(
            (field, (pre.len() + quoted(field).len()) as int),
        ),
        quoted(field).len() == field.spec_name().len() + 2,
{
    reveal_strlit("minDelay");
    reveal_strlit("maxDelay");
    reveal_strlit("errorRate");
    let s = pre + quoted(field) + rest;
    let i = pre.len() as int;
    let name = field.spec_name();
    assert(s[i] == 0x22);
    assert forall|k: int| 0 <= k < name.len() implies s[i + 1 + k] == #[trigger] name[k] as u8 by {
        assert(s[i + 1 + k] == quoted(field)[1 + k]);
        assert(quoted(field)[1 + k] == bytes_of(name)[k]);
    }
    assert(s[i + 1 + name.len()] == quoted(field)[1 + name.len() as int]);
    assert(name_at(s, i, field));
    let min = Field::MinDelay.spec_name();
    let max = Field::MaxDelay.spec_name();
    if field != Field::MinDelay {
        if text_at(s, i + 1, min) {
            assert(s[i + 1 + 1] == min[1] as u8);
            assert(s[i + 1 + 1] == name[1] as u8);
            assert(s[i + 1 + 0] == min[0] as u8);
            assert(s[i + 1 + 0] == name[0] as u8);
            assert(false);
        }
    }
    if field == Field::ErrorRate {
        if text_at(s, i + 1, max) {
            assert(s[i + 1 + 0] == max[0] as u8);
            assert(s[i + 1 + 0] == name[0] as u8);
            assert(false);
        }
    }
}

/// A spelled member is read as its field and its value.
#[verifier::rlimit(50)]
pub proof fn lemma_member_is_read(
    pre: Seq<u8>,
    field: Field,
    value: u32,
    before: Seq<u8>,
    behind: Seq<u8>,
    rest: Seq<u8>,
)
    requires
        all_space(before),
        all_space(behind),
        rest.len() == 0 || !is_digit(rest[0]),
    ensures
        member_at(
            pre + spelled_member(field, value, before, behind) + rest,
            pre.len() as int,
        ) == Some(
            Member {
                field,
                value,
                end: (pre.len() + spelled_member(field, value, before, behind).len()) as int,
            },
        ),
{
    reveal(spelled_member);
    let run = digits(value as nat);
    let colon = seq![0x3au8];
    let s = pre + spelled_member(field, value, before, behind) + rest;
    lemma_digits_shape(value as nat);
    lemma_name_is_read(pre, field, before + colon + behind + run + rest);
    assert(pre + quoted(field) + (before + colon + behind + run + rest) =~= s);
    let named = pre + quoted(field);
    lemma_skip_gap(named, before, colon + behind + run + rest);
    assert(named + before + (colon + behind + run + rest) =~= s);
    let at_colon = (named.len() + before.len()) as int;
    assert(s[at_colon] == 0x3a);
    let past = named + before + colon;
    assert((run + rest)[0] == run[0]);
    lemma_skip_gap(past, behind, run + rest);
    assert(past + behind + (run + rest) =~= s);
    lemma_number_is_read(past + behind, value, rest);
    assert(past + behind + run + rest =~= s);
    assert(spelled_member(field, value, before, behind).len() == quoted(field).len()
        + before.len() + 1 + behind.len() + run.len());
}

/// A spelled member behind its opening byte is read as its field and its
/// value.
#[verifier::rlimit(50)]
pub proof fn lemma_part_is_read(
    pre: Seq<u8>,
    config: TypeConfigView,
    field: Field,
    lead: Seq<u8>,
    open: u8,
    gap: Seq<u8>,
    colon: (Seq<u8>, Seq<u8>),
    rest: Seq<u8>,
)
    requires
        all_space(lead),
        all_space(gap),
        all_space(colon.0),
        all_space(colon.1),
        !is_space(open),
        rest.len() == 0 || !is_digit(rest[0]),
    ensures
        member_after(
            pre + spelled_part(config, field, lead, open, gap, colon) + rest,
            pre.len() as int,
            open,
        ) == Some(
            Member {
                field,
                value: member_value(config, field) as u32,
                end: (pre.len() + spelled_part(config, field, lead, open, gap, colon).len()) as int,
            },
        ),
{
    let value = member_value(config, field) as u32;
    let member = spelled_member(field, value, colon.0, colon.1);
    let s = pre + spelled_part(config, field, lead, open, gap, colon) + rest;
    let opening = seq![open];
    lemma_skip_gap(pre, lead, opening + gap + member + rest);
    assert(pre + lead + (opening + gap + member + rest) =~= s);
    let at_open = (pre.len() + lead.len()) as int;
    assert(s[at_open] == open);
    let opened = pre + lead + opening;
    assert(member.len() > 0 && member[0] == 0x22) by {
        reveal(spelled_member);
    }
    assert((member + rest)[0] == member[0]);
    lemma_skip_gap(opened, gap, member + rest);
    assert(opened + gap + (member + rest) =~= s);
    lemma_member_is_read(opened + gap, field, value, colon.0, colon.1, rest);
    assert(opened + gap + member + rest =~= s);
}

/// What follows a member in a spelling starts with white space, a comma or a
/// closing brace: never with a digit.
proof fn lemma_no_digit_follows(lead: Seq<u8>, byte: u8, rest: Seq<u8>)
    requires
        all_space(lead),
        !is_digit(byte),
    ensures
        !is_digit((lead + seq![byte] + rest)[0]),
{
    let s = lead + seq![byte] + rest;
    if lead.len() > 0 {
        assert(s[0] == lead[0]);
    } else {
        assert(s[0] == byte);
    }
}

/// The numbers of the configuration fit 32 bits.
pub open spec fn fits(config: TypeConfigView) -> bool {
    config.min_delay <= u32::MAX && config.max_delay <= u32::MAX && config.error_rate <= u32::MAX
}

/// The three members of a spelling, each with where it ends.
pub open spec fn spelled_members(
    config: TypeConfigView,
    order: (Field, Field, Field),
    gaps: Gaps,
) -> (Member, Member, Member) {
    let first = spelled_part(config, order.0, gaps.lead, 0x7b, gaps.open, gaps.first);
    let second = spelled_part(config, order.1, gaps.comma.0, 0x2c, gaps.comma.1, gaps.second);
    let third = spelled_part(
        config,
        order.2,
        gaps.other_comma.0,
        0x2c,
        gaps.other_comma.1,
        gaps.third,
    );
    (
        Member {
            field: order.0,
            value: member_value(config, order.0) as u32,
            end: first.len() as int,
        },
        Member {
            field: order.1,
            value: member_value(config, order.1) as u32,
            end: (first.len() + second.len()) as int,
        },
        Member {
            field: order.2,
            value: member_value(config, order.2) as u32,
            end: (first.len() + second.len() + third.len()) as int,
        },
    )
}

/// A member of a spelling is read where it stands, whatever precedes it,
/// provided that white space and then a byte that is no digit follow.
proof fn lemma_part_in_place(
    pre: Seq<u8>,
    config: TypeConfigView,
    field: Field,
    lead: Seq<u8>,
    open: u8,
    gap: Seq<u8>,
    colon: (Seq<u8>, Seq<u8>),
    next_lead: Seq<u8>,
    next: u8,
    next_rest: Seq<u8>,
)
    requires
        all_space(lead),
        all_space(gap),
        all_space(colon.0),
        all_space(colon.1),
        all_space(next_lead),
        !is_space(open),
        !is_digit(next),
    ensures
        member_after(
            pre + spelled_part(config, field, lead, open, gap, colon) + (next_lead + seq![next]
                + next_rest),
            pre.len() as int,
            open,
        ) == Some(
            Member {
                field,
                value: member_value(config, field) as u32,
                end: (pre.len() + spelled_part(config, field, lead, open, gap, colon).len()) as int,
            },
        ),
{
    lemma_no_digit_follows(next_lead, next, next_rest);
    lemma_part_is_read(
        pre,
        config,
        field,
        lead,
        open,
        gap,
        colon,
        next_lead + seq![next] + next_rest,
    );
}

/// The first member of a spelling is read.
#[verifier::rlimit(50)]
proof fn lemma_first_is_read(config: TypeConfigView, order: (Field, Field, Field), gaps: Gaps)
    requires
        gaps.blank(),
    ensures
        member_after(spelled(config, order, gaps), 0, 0x7b) == Some(
            spelled_members(config, order, gaps).0,
        ),
{
    let first = spelled_part(config, order.0, gaps.lead, 0x7b, gaps.open, gaps.first);
    let third = spelled_part(
        config,
        order.2,
        gaps.other_comma.0,
        0x2c,
        gaps.other_comma.1,
        gaps.third,
    );
    let member = spelled_member(
        order.1,
        member_value(config, order.1) as u32,
        gaps.second.0,
        gaps.second.1,
    );
    let rest = gaps.comma.1 + member + third + gaps.close + seq![0x7du8] + gaps.trail;
    let none = Seq::<u8>::empty();
    lemma_part_in_place(
        none,
        config,
        order.0,
        gaps.lead,
        0x7b,
        gaps.open,
        gaps.first,
        gaps.comma.0,
        0x2c,
        rest,
    );
    assert(none + first + (gaps.comma.0 + seq![0x2cu8] + rest) =~= spelled(config, order, gaps));
}

/// The second member of a spelling is read.
#[verifier::rlimit(50)]
proof fn lemma_second_is_read(config: TypeConfigView, order: (Field, Field, Field), gaps: Gaps)
    requires
        gaps.blank(),
    ensures
        member_after(
            spelled(config, order, gaps),
            spelled_members(config, order, gaps).0.end,
            0x2c,
        ) == Some(spelled_members(config, order, gaps).1),
{
    let first = spelled_part(config, order.0, gaps.lead, 0x7b, gaps.open, gaps.first);
    let second = spelled_part(config, order.1, gaps.comma.0, 0x2c, gaps.comma.1, gaps.second);
    let member = spelled_member(
        order.2,
        member_value(config, order.2) as u32,
        gaps.third.0,
        gaps.third.1,
    );
    let rest = gaps.other_comma.1 + member + gaps.close + seq![0x7du8] + gaps.trail;
    lemma_part_in_place(
        first,
        config,
        order.1,
        gaps.comma.0,
        0x2c,
        gaps.comma.1,
        gaps.second,
        gaps.other_comma.0,
        0x2c,
        rest,
    );
    assert(first + second + (gaps.other_comma.0 + seq![0x2cu8] + rest) =~= spelled(
        config,
        order,
        gaps,
    ));
}

/// The third member of a spelling is read.
#[verifier::rlimit(50)]
proof fn lemma_third_is_read(config: TypeConfigView, order: (Field, Field, Field), gaps: Gaps)
    requires
        gaps.blank(),
    ensures
        member_after(
            spelled(config, order, gaps),
            spelled_members(config, order, gaps).1.end,
            0x2c,
        ) == Some(spelled_members(config, order, gaps).2),
{
    let first = spelled_part(config, order.0, gaps.lead, 0x7b, gaps.open, gaps.first);
    let second = spelled_part(config, order.1, gaps.comma.0, 0x2c, gaps.comma.1, gaps.second);
    let third = spelled_part(
        config,
        order.2,
        gaps.other_comma.0,
        0x2c,
        gaps.other_comma.1,
        gaps.third,
    );
    lemma_part_in_place(
        first + second,
        config,
        order.2,
        gaps.other_comma.0,
        0x2c,
        gaps.other_comma.1,
        gaps.third,
        gaps.close,
        0x7d,
        gaps.trail,
    );
    assert(first + second + third + (gaps.close + seq![0x7du8] + gaps.trail) =~= spelled(
        config,
        order,
        gaps,
    ));
}

/// Behind the third member of a spelling stands the closing brace, and
/// behind that nothing but white space.
#[verifier::rlimit(50)]
proof fn lemma_end_is_read(config: TypeConfigView, order: (Field, Field, Field), gaps: Gaps)
    requires
        gaps.blank(),
    ensures
        ({
            let s = spelled(config, order, gaps);
            let close = skip_spaces(s, spelled_members(config, order, gaps).2.end);
            byte_at(s, close, 0x7d) && skip_spaces(s, close + 1) == s.len()
        }),
{
    let s = spelled(config, order, gaps);
    let first = spelled_part(config, order.0, gaps.lead, 0x7b, gaps.open, gaps.first);
    let second = spelled_part(config, order.1, gaps.comma.0, 0x2c, gaps.comma.1, gaps.second);
    let third = spelled_part(
        config,
        order.2,
        gaps.other_comma.0,
        0x2c,
        gaps.other_comma.1,
        gaps.third,
    );
    let parts = first + second + third;
    let closing = seq![0x7du8];
    let none = Seq::<u8>::empty();
    let close = (parts.len() + gaps.close.len()) as int;
    assert((closing + gaps.trail)[0] == 0x7d);
    lemma_skip_gap(parts, gaps.close, closing + gaps.trail);
    assert(parts + gaps.close + (closing + gaps.trail) =~= s);
    assert(s[close] == 0x7d);
    lemma_skip_gap(parts + gaps.close + closing, gaps.trail, none);
    assert(parts + gaps.close + closing + gaps.trail + none =~= s);
}

/// Every spelling of a configuration is a file that holds it: whatever the
/// order of the three members and whatever white space stands between the
/// tokens.
pub proof fn lemma_spelling_is_read(
    config: TypeConfigView,
    order: (Field, Field, Field),
    gaps: Gaps,
)
    requires
        fits(config),
        order.0 != order.1,
        order.0 != order.2,
        order.1 != order.2,
        gaps.blank(),
    ensures
        document(spelled(config, order, gaps)) == Some(config),
{
    lemma_first_is_read(config, order, gaps);
    lemma_second_is_read(config, order, gaps);
    lemma_third_is_read(config, order, gaps);
    lemma_end_is_read(config, order, gaps);
    let (a, b, c) = spelled_members(config, order, gaps);
    assert(value_of(Field::MinDelay, a, b, c) == config.min_delay);
    assert(value_of(Field::MaxDelay, a, b, c) == config.max_delay);
    assert(value_of(Field::ErrorRate, a, b, c) == config.error_rate);
}

} // verus!
