//! The search bar: when it shows, when its entry takes the focus, and the
//! text of its match counter.
use vstd::prelude::*;

verus! {

/// The search bar starts hidden.
pub const SEARCH_INITIALLY_VISIBLE: bool = false;

/// What happens to the search bar.
#[derive(Clone, Copy, Debug, PartialEq, Eq, Structural)]
pub enum SearchEvent {
    /// The search shortcut toggles the bar.
    Toggle,
    /// The bar's close button was clicked.
    Close,
}

/// The bar's visibility after an event, and whether the search entry is to
/// take the keyboard focus.
#[derive(Clone, Copy, Debug, PartialEq, Eq, Structural)]
pub struct SearchStep {
    pub visible: bool,
    pub focus_entry: bool,
}

/// The step that `event` causes on a bar whose visibility is `visible`.
pub open spec fn search_step(visible: bool, event: SearchEvent) -> SearchStep {
    match event {
        SearchEvent::Toggle => SearchStep { visible: !visible, focus_entry: !visible },
        SearchEvent::Close => SearchStep { visible: false, focus_entry: false },
    }
}

/// Decides the bar's next visibility: a toggle flips it and focuses the
/// entry when the bar opens; the close button hides the bar.
pub fn next_search_step(visible: bool, event: SearchEvent) -> (step: SearchStep)
    ensures
        step == search_step(visible, event),
{
    match event {
        SearchEvent::Toggle => SearchStep { visible: !visible, focus_entry: !visible },
        SearchEvent::Close => SearchStep { visible: false, focus_entry: false },
    }
}

/// Toggling twice gives back the visibility one started with.
pub proof fn law_toggle_twice_restores(visible: bool)
    ensures
        search_step(search_step(visible, SearchEvent::Toggle).visible, SearchEvent::Toggle).visible
            == visible,
{
}

/// The entry takes the focus exactly when the bar goes from hidden to shown.
pub proof fn law_focus_when_opened(visible: bool, event: SearchEvent)
    ensures
        search_step(visible, event).focus_entry <==> (!visible && search_step(visible, event).visible),
{
}

/// Closing leaves the bar hidden whatever its state, so closing twice is
/// the same as closing once.
pub proof fn law_close_hides(visible: bool)
    ensures
        !search_step(visible, SearchEvent::Close).visible,
        search_step(search_step(visible, SearchEvent::Close).visible, SearchEvent::Close)
            == search_step(visible, SearchEvent::Close),
{
}

/// The decimal digit `d`.
pub open spec fn digit_char(d: nat) -> char {
    ((('0' as int) + d) as char)
}

/// The decimal text of `n`, without leading zeros.
pub open spec fn decimal(n: nat) -> Seq<char>
    decreases n,
{
    if n < 10 {
        seq![digit_char(n)]
    } else {
        decimal(n / 10).push(digit_char(n % 10))
    }
}

/// The counter text: `current`, a slash, `total`.
pub open spec fn count_text(current: nat, total: nat) -> Seq<char> {
    decimal(current) + seq!['/'] + decimal(total)
}

fn digit_str(d: usize) -> (s: &'static str)
    requires
        d < 10,
    ensures
        s@ == seq![digit_char(d as nat)],
{
    proof {
        reveal_strlit("0");
        reveal_strlit("1");
        reveal_strlit("2");
        reveal_strlit("3");
        reveal_strlit("4");
        reveal_strlit("5");
        reveal_strlit("6");
        reveal_strlit("7");
        reveal_strlit("8");
        reveal_strlit("9");
    }
    let s = match d {
        0 => "0",
        1 => "1",
        2 => "2",
        3 => "3",
        4 => "4",
        5 => "5",
        6 => "6",
        7 => "7",
        8 => "8",
        _ => "9",
    };
    assert(s@ =~= seq![digit_char(d as nat)]);
    s
}

/// Appends the decimal text of `n` to `s`.
fn push_decimal(s: &mut String, n: usize)
    ensures
        final(s)@ == old(s)@ + decimal(n as nat),
    decreases n,
{
    if n >= 10 {
        push_decimal(s, n / 10);
    }
    s.append(digit_str(n % 10));
    assert(decimal(n as nat) =~= if n < 10 {
        seq![digit_char(n as nat)]
    } else {
        decimal((n / 10) as nat).push(digit_char((n % 10) as nat))
    });
}

/// The text of the match counter: the current match, a slash, the number
/// of matches.
pub fn match_count_text(current: usize, total: usize) -> (text: String)
    ensures
        text@ == count_text(current as nat, total as nat),
{
    let mut s = String::new();
    push_decimal(&mut s, current);
    proof {
        reveal_strlit("/");
    }
    s.append("/");
    push_decimal(&mut s, total);
    assert(s@ =~= count_text(current as nat, total as nat));
    s
}

/// The counter's text once cleared: empty.
pub fn cleared_match_count_text() -> (text: String)
    ensures
        text@ == Seq::<char>::empty(),
{
    String::new()
}

/// Every character of the decimal text of `n` is a digit, and the text has
/// more than one character exactly when `n` is at least ten.
pub proof fn lemma_decimal_digits(n: nat)
    ensures
        forall|i: int| 0 <= i < decimal(n).len() ==> '0' <= #[trigger] decimal(n)[i] <= '9',
        decimal(n).len() >= 1,
        decimal(n).len() > 1 <==> n >= 10,
    decreases n,
{
    if n >= 10 {
        lemma_decimal_digits(n / 10);
    }
}

proof fn lemma_digit_char_injective(x: nat, y: nat)
    requires
        x < 10,
        y < 10,
        digit_char(x) == digit_char(y),
    ensures
        x == y,
{
    assert(digit_char(x) as int == ('0' as int) + x);
    assert(digit_char(y) as int == ('0' as int) + y);
}

/// Different numbers have different decimal texts.
pub proof fn law_decimal_injective(a: nat, b: nat)
    requires
        decimal(a) == decimal(b),
    ensures
        a == b,
    decreases a,
{
    lemma_decimal_digits(a);
    lemma_decimal_digits(b);
    if a >= 10 && b >= 10 {
        assert(decimal(a / 10) == decimal(a).drop_last());
        assert(decimal(b / 10) == decimal(b).drop_last());
        law_decimal_injective(a / 10, b / 10);
        assert(decimal(a) == decimal(a / 10).push(digit_char(a % 10)));
        assert(decimal(b) == decimal(b / 10).push(digit_char(b % 10)));
        assert(decimal(a).last() == digit_char(a % 10));
        assert(decimal(b).last() == digit_char(b % 10));
        lemma_digit_char_injective(a % 10, b % 10);
    } else {
        assert(decimal(a).len() == decimal(b).len());
        assert(a < 10 && b < 10);
        assert(decimal(a) == seq![digit_char(a)]);
        assert(decimal(b) == seq![digit_char(b)]);
        assert(decimal(a)[0] == digit_char(a));
        assert(decimal(b)[0] == digit_char(b));
        lemma_digit_char_injective(a, b);
    }
}

/// The counter text gives back both numbers: two counters read alike only
/// when they count the same current match and the same total.
pub proof fn law_count_text_determines_counts(c1: nat, t1: nat, c2: nat, t2: nat)
    requires
        count_text(c1, t1) == count_text(c2, t2),
    ensures
        c1 == c2,
        t1 == t2,
{
    lemma_decimal_digits(c1);
    lemma_decimal_digits(c2);
    lemma_decimal_digits(t1);
    lemma_decimal_digits(t2);
    let x = count_text(c1, t1);
    let l1 = decimal(c1).len() as int;
    let l2 = decimal(c2).len() as int;
    assert(x[l1] == '/');
    assert(count_text(c2, t2)[l2] == '/');
    if l1 < l2 {
        assert(count_text(c2, t2)[l1] == decimal(c2)[l1]);
    } else if l2 < l1 {
        assert(x[l2] == decimal(c1)[l2]);
    }
    assert(l1 == l2);
    assert(decimal(c1) =~= x.subrange(0, l1));
    assert(decimal(c2) =~= count_text(c2, t2).subrange(0, l2));
    law_decimal_injective(c1, c2);
    assert(decimal(t1) =~= x.subrange(l1 + 1, x.len() as int));
    assert(decimal(t2) =~= count_text(c2, t2).subrange(l2 + 1, x.len() as int));
    law_decimal_injective(t1, t2);
}

/// A toggle always flips the bar's visibility.
pub proof fn law_toggle_flips(visible: bool)
    ensures
        search_step(visible, SearchEvent::Toggle).visible == !visible,
        search_step(visible, SearchEvent::Toggle).focus_entry == !visible,
{
}

/// The number that a text of decimal digits denotes, most significant first.
pub open spec fn digits_value(s: Seq<char>) -> int
    decreases s.len(),
{
    if s.len() == 0 {
        0
    } else {
        digits_value(s.drop_last()) * 10 + ((s.last() as int) - 48)
    }
}

/// Reading the decimal text of `n` gives back `n`.
pub proof fn law_decimal_reads_back(n: nat)
    ensures
        digits_value(decimal(n)) == n,
    decreases n,
{
    assert(digit_char(n % 10) as int == 48 + n % 10);
    if n >= 10 {
        law_decimal_reads_back(n / 10);
        assert(decimal(n) == decimal(n / 10).push(digit_char(n % 10)));
        assert(decimal(n).drop_last() =~= decimal(n / 10));
        assert(decimal(n).last() == digit_char(n % 10));
        assert(n == (n / 10) * 10 + n % 10);
        let d = decimal(n);
        assert(digits_value(d) == digits_value(d.drop_last()) * 10 + ((d.last() as int) - 48));
        assert(digits_value(d.drop_last()) == n / 10);
    } else {
        let d = decimal(n);
        assert(digits_value(d) == digits_value(d.drop_last()) * 10 + ((d.last() as int) - 48));
        assert(decimal(n) == seq![digit_char(n)]);
        assert(decimal(n).drop_last() =~= Seq::<char>::empty());
        assert(digit_char(n) as int == 48 + n);
    }
}

/// The counter text is the current match in decimal, a slash, and the
/// total in decimal, each reading back as its number.
pub proof fn law_count_text_reads_back(current: nat, total: nat)
    ensures
        ({
            let text = count_text(current, total);
            let k = decimal(current).len() as int;
            &&& text[k] == '/'
            &&& forall|i: int| 0 <= i < text.len() && i != k ==> '0' <= #[trigger] text[i] <= '9'
            &&& digits_value(text.take(k)) == current
            &&& digits_value(text.skip(k + 1)) == total
        }),
{
    lemma_decimal_digits(current);
    lemma_decimal_digits(total);
    law_decimal_reads_back(current);
    law_decimal_reads_back(total);
    let text = count_text(current, total);
    let k = decimal(current).len() as int;
    assert(text.take(k) =~= decimal(current));
    assert(text.skip(k + 1) =~= decimal(total));
    assert forall|i: int| 0 <= i < text.len() && i != k implies '0' <= #[trigger] text[i] <= '9' by {
        if i < k {
            assert(text[i] == decimal(current)[i]);
        } else {
            assert(text[i] == decimal(total)[i - k - 1]);
        }
    }
}

} // verus!
