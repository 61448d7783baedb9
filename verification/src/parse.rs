//! Parsers for the audio tools' tabular output.
//!
//! The audio server prints cards, sources and sinks as indented text; the
//! Bluetooth daemon prints a device's properties line by line.  These
//! functions turn that text into the values the policy works on: the
//! profiles advertised for a card, the Bluetooth cards themselves with
//! their active profiles, a device's friendly name, and the presence and
//! running state of the voice nodes.

use vstd::prelude::*;
use vstd::string::*;

use crate::bt::{card_views, mac_of_card_name, BtCard, BtCardView};
use crate::text::{
    before_colon, before_colon_spec, contains_seq, find_char_spec, lines_spec, split_lines,
    starts_with_seq, str_contains, str_eq, str_starts_with, str_trim, strip_prefix_str, trim_spec,
    views_of,
};

verus! {

/// The header line that opens a card's section.
pub open spec fn name_line(card: Seq<char>) -> Seq<char> {
    "Name: "@ + card
}

/// One step of the profile-listing scan, over the remaining lines.
/// `in_card` records that the wanted card's section has been entered,
/// `in_profs` that its profile block has; `acc` collects the profile names
/// seen so far.
pub open spec fn profiles_scan(
    ls: Seq<Seq<char>>,
    card: Seq<char>,
    in_card: bool,
    in_profs: bool,
    acc: Seq<Seq<char>>,
) -> Seq<Seq<char>>
    decreases ls.len(),
{
    if ls.len() == 0 {
        acc
    } else {
        let t = trim_spec(ls[0]);
        let rest = ls.subrange(1, ls.len() as int);
        if t == name_line(card) {
            profiles_scan(rest, card, true, false, Seq::<Seq<char>>::empty())
        } else if !in_card {
            profiles_scan(rest, card, in_card, in_profs, acc)
        } else if starts_with_seq(t, "Name: bluez_card."@) {
            acc
        } else if t == "Profiles:"@ {
            profiles_scan(rest, card, true, true, acc)
        } else if in_profs {
            if starts_with_seq(t, "Active Profile:"@) {
                acc
            } else {
                let nm = trim_spec(before_colon_spec(t));
                if nm.len() > 0 {
                    profiles_scan(rest, card, true, true, acc.push(nm))
                } else {
                    profiles_scan(rest, card, true, true, acc)
                }
            }
        } else {
            profiles_scan(rest, card, true, false, acc)
        }
    }
}

/// The profiles advertised for `card` in a full card listing.
pub open spec fn available_profiles_spec(text: Seq<char>, card: Seq<char>) -> Seq<Seq<char>> {
    profiles_scan(lines_spec(text), card, false, false, Seq::<Seq<char>>::empty())
}

fn scan_profiles(
    ls: &Vec<String>,
    i: usize,
    name_ln: &String,
    in_card: bool,
    in_profs: bool,
    acc: Vec<String>,
) -> (r: Vec<String>)
    requires
        i <= ls@.len(),
    ensures
        starts_with_seq(name_ln@, "Name: "@) ==> views_of(r@) == profiles_scan(
            views_of(ls@).subrange(i as int, ls@.len() as int),
            name_ln@.subrange("Name: "@.len() as int, name_ln@.len() as int),
            in_card,
            in_profs,
            views_of(acc@),
        ),
    decreases ls@.len() - i,
{
    let ghost seg = views_of(ls@).subrange(i as int, ls@.len() as int);
    let ghost card = name_ln@.subrange("Name: "@.len() as int, name_ln@.len() as int);
    if i == ls.len() {
        proof {
            assert(seg =~= Seq::<Seq<char>>::empty());
        }
        return acc;
    }
    proof {
        assert(seg[0] == ls@[i as int]@);
        assert(seg.subrange(1, seg.len() as int) =~= views_of(ls@).subrange(
            i as int + 1,
            ls@.len() as int,
        ));
        if starts_with_seq(name_ln@, "Name: "@) {
            assert(name_ln@ =~= name_line(card));
        }
    }
    let t = str_trim(ls[i].as_str());
    if str_eq(t, name_ln.as_str()) {
        let acc0: Vec<String> = Vec::new();
        proof {
            assert(views_of(acc0@) =~= Seq::<Seq<char>>::empty());
        }
        scan_profiles(ls, i + 1, name_ln, true, false, acc0)
    } else if !in_card {
        scan_profiles(ls, i + 1, name_ln, in_card, in_profs, acc)
    } else if str_starts_with(t, "Name: bluez_card.") {
        acc
    } else if str_eq(t, "Profiles:") {
        scan_profiles(ls, i + 1, name_ln, true, true, acc)
    } else if in_profs {
        if str_starts_with(t, "Active Profile:") {
            acc
        } else {
            let nm = str_trim(before_colon(t));
            if nm.unicode_len() > 0 {
                let mut acc2 = acc;
                acc2.push(String::from_str(nm));
                proof {
                    assert(views_of(acc2@) =~= views_of(acc@).push(nm@));
                }
                scan_profiles(ls, i + 1, name_ln, true, true, acc2)
            } else {
                scan_profiles(ls, i + 1, name_ln, true, true, acc)
            }
        }
    } else {
        scan_profiles(ls, i + 1, name_ln, true, false, acc)
    }
}

/// List the profiles advertised for `card_name` in the card listing `text`.
/// Unknown cards yield an empty list, never an error.
pub fn available_profiles(text: &str, card_name: &str) -> (r: Vec<String>)
    ensures
        views_of(r@) == available_profiles_spec(text@, card_name@),
{
    let ls = split_lines(text);
    let mut name_ln = String::from_str("Name: ");
    name_ln.append(card_name);
    proof {
        assert(name_ln@.subrange("Name: "@.len() as int, name_ln@.len() as int) =~= card_name@);
        assert(name_ln@.subrange(0, "Name: "@.len() as int) =~= "Name: "@);
    }
    let r = scan_profiles(&ls, 0, &name_ln, false, false, Vec::new());
    proof {
        assert(views_of(ls@).subrange(0, ls@.len() as int) =~= lines_spec(text@));
        assert(views_of(Seq::<String>::empty()) =~= Seq::<Seq<char>>::empty());
    }
    r
}

/// Whether a node with this name occurs in a source or sink listing.
pub fn has_node(listing: &str, node: &str) -> (r: bool)
    ensures
        r == contains_seq(listing@, node@),
{
    str_contains(listing, node)
}

/// Some line of the listing names the node without marking it suspended.
pub open spec fn node_running_spec(listing: Seq<char>, node: Seq<char>) -> bool {
    exists|i: int|
        0 <= i < lines_spec(listing).len() && contains_seq(#[trigger] lines_spec(listing)[i], node)
            && !contains_seq(lines_spec(listing)[i], "SUSPENDED"@)
}

/// Whether the node is listed in a state other than suspended.
pub fn node_is_running(listing: &str, node: &str) -> (r: bool)
    ensures
        r == node_running_spec(listing@, node@),
{
    let ls = split_lines(listing);
    let n = ls.len();
    let mut i: usize = 0;
    while i < n
        invariant
            0 <= i <= n,
            n == ls@.len(),
            views_of(ls@) == lines_spec(listing@),
            forall|j: int|
                0 <= j < i ==> !(contains_seq(#[trigger] lines_spec(listing@)[j], node@)
                    && !contains_seq(lines_spec(listing@)[j], "SUSPENDED"@)),
        decreases n - i,
    {
        let line = ls[i].as_str();
        if str_contains(line, node) && !str_contains(line, "SUSPENDED") {
            assert(contains_seq(lines_spec(listing@)[i as int], node@) && !contains_seq(
                lines_spec(listing@)[i as int],
                "SUSPENDED"@,
            ));
            return true;
        }
        proof {
            assert(lines_spec(listing@)[i as int] == ls@[i as int]@);
        }
        i += 1;
    }
    false
}

/// Decimal digits, as printed in the listing's index column.
pub open spec fn is_digit_char(c: char) -> bool {
    '0' <= c && c <= '9'
}

/// A non-empty run of decimal digits.
pub open spec fn digits_spec(s: Seq<char>) -> bool {
    s.len() > 0 && forall|j: int| 0 <= j < s.len() ==> is_digit_char(#[trigger] s[j])
}

fn all_digits(s: &str) -> (r: bool)
    ensures
        r == digits_spec(s@),
{
    let n = s.unicode_len();
    if n == 0 {
        return false;
    }
    let mut i: usize = 0;
    while i < n
        invariant
            0 <= i <= n,
            n == s@.len(),
            forall|j: int| 0 <= j < i ==> is_digit_char(#[trigger] s@[j]),
        decreases n - i,
    {
        let c = s.get_char(i);
        if !(c >= '0' && c <= '9') {
            return false;
        }
        i += 1;
    }
    true
}

/// The card name in one line of the short card listing, when the line is an
/// index, a tab, and a Bluetooth card name.
pub open spec fn parse_short_line(l: Seq<char>) -> Option<Seq<char>> {
    let i = find_char_spec(l, '\t');
    if i == l.len() {
        None
    } else {
        let col0 = trim_spec(l.subrange(0, i));
        let rest = l.subrange(i + 1, l.len() as int);
        let name = trim_spec(rest.subrange(0, find_char_spec(rest, '\t')));
        if digits_spec(col0) && starts_with_seq(name, "bluez_card."@) {
            Some(name)
        } else {
            None
        }
    }
}

/// A card as first built from the short listing: no friendly name, no
/// active profile yet.
pub open spec fn fresh_card(name: Seq<char>) -> BtCardView {
    BtCardView { name, mac: mac_of_card_name(name), display_name: None, active_profile: None }
}

/// The Bluetooth cards named by the short listing's lines, in order.
pub open spec fn short_cards_spec(ls: Seq<Seq<char>>) -> Seq<BtCardView>
    decreases ls.len(),
{
    if ls.len() == 0 {
        Seq::<BtCardView>::empty()
    } else {
        (match parse_short_line(ls[0]) {
            Some(name) => seq![fresh_card(name)],
            None => Seq::<BtCardView>::empty(),
        }) + short_cards_spec(ls.subrange(1, ls.len() as int))
    }
}

/// Index of the first card with this name, or `cards.len()` if absent.
pub open spec fn find_view_idx(cards: Seq<BtCardView>, name: Seq<char>) -> int
    decreases cards.len(),
{
    if cards.len() == 0 {
        0
    } else if cards[0].name == name {
        0
    } else {
        1 + find_view_idx(cards.subrange(1, cards.len() as int), name)
    }
}

pub proof fn lemma_find_view_idx_at(cards: Seq<BtCardView>, name: Seq<char>, i: int)
    requires
        0 <= i <= cards.len(),
        forall|j: int| 0 <= j < i ==> (#[trigger] cards[j]).name != name,
        i < cards.len() ==> cards[i].name == name,
    ensures
        find_view_idx(cards, name) == i,
    decreases cards.len(),
{
    if cards.len() != 0 {
        if i == 0 {
        } else {
            let t = cards.subrange(1, cards.len() as int);
            assert(forall|j: int| 0 <= j < i - 1 ==> t[j] == cards[j + 1]);
            lemma_find_view_idx_at(t, name, i - 1);
        }
    }
}

/// The first card with this name, if any, gets this active profile.
pub open spec fn set_active_first(
    cards: Seq<BtCardView>,
    name: Seq<char>,
    prof: Seq<char>,
) -> Seq<BtCardView> {
    let i = find_view_idx(cards, name);
    if i < cards.len() {
        cards.update(
            i,
            BtCardView {
                name: cards[i].name,
                mac: cards[i].mac,
                display_name: cards[i].display_name,
                active_profile: Some(prof),
            },
        )
    } else {
        cards
    }
}

/// One step of the verbose-listing scan: `Name:` lines select the current
/// card, `Active Profile:` lines record its profile.
pub open spec fn verbose_scan(
    ls: Seq<Seq<char>>,
    cur: Option<Seq<char>>,
    cards: Seq<BtCardView>,
) -> Seq<BtCardView>
    decreases ls.len(),
{
    if ls.len() == 0 {
        cards
    } else {
        let t = trim_spec(ls[0]);
        let rest = ls.subrange(1, ls.len() as int);
        if starts_with_seq(t, "Name:"@) {
            verbose_scan(
                rest,
                Some(trim_spec(t.subrange("Name:"@.len() as int, t.len() as int))),
                cards,
            )
        } else if starts_with_seq(t, "Active Profile:"@) {
            let prof = trim_spec(t.subrange("Active Profile:"@.len() as int, t.len() as int));
            match cur {
                Some(c) => verbose_scan(rest, cur, set_active_first(cards, c, prof)),
                None => verbose_scan(rest, cur, cards),
            }
        } else {
            verbose_scan(rest, cur, cards)
        }
    }
}

/// The Bluetooth cards of a short listing, enriched with the active
/// profiles reported by the verbose listing.
pub open spec fn bt_cards_spec(short_text: Seq<char>, verbose_text: Seq<char>) -> Seq<BtCardView> {
    verbose_scan(lines_spec(verbose_text), None, short_cards_spec(lines_spec(short_text)))
}

fn parse_short_cards(ls: &Vec<String>, i: usize) -> (r: Vec<BtCard>)
    requires
        i <= ls@.len(),
    ensures
        card_views(r@) == short_cards_spec(views_of(ls@).subrange(i as int, ls@.len() as int)),
    decreases ls@.len() - i,
{
    let ghost seg = views_of(ls@).subrange(i as int, ls@.len() as int);
    if i == ls.len() {
        let r: Vec<BtCard> = Vec::new();
        proof {
            assert(seg =~= Seq::<Seq<char>>::empty());
            assert(card_views(r@) =~= short_cards_spec(seg));
        }
        return r;
    }
    proof {
        assert(seg[0] == ls@[i as int]@);
        assert(seg.subrange(1, seg.len() as int) =~= views_of(ls@).subrange(
            i as int + 1,
            ls@.len() as int,
        ));
    }
    let l = ls[i].as_str();
    let n = l.unicode_len();
    let tab = crate::text::find_char(l, '\t');
    let mut head: Option<BtCard> = None;
    if tab < n {
        proof {
            crate::text::lemma_find_char(l@, '\t');
        }
        let col0 = str_trim(l.substring_char(0, tab));
        let rest = l.substring_char(tab + 1, n);
        let ghost rv = rest@;
        let tab2 = crate::text::find_char(rest, '\t');
        proof {
            crate::text::lemma_find_char(rv, '\t');
        }
        let name = str_trim(rest.substring_char(0, tab2));
        if all_digits(col0) && str_starts_with(name, "bluez_card.") {
            proof {
                assert(parse_short_line(seg[0]) == Some(name@));
            }
            let name_s = String::from_str(name);
            let mac = crate::bt::card_name_to_mac(name);
            head = Some(BtCard { name: name_s, mac, display_name: None, active_profile: None });
            proof {
                assert(head matches Some(c) && c@ == fresh_card(name@));
            }
        } else {
            proof {
                assert(col0@ == trim_spec(seg[0].subrange(0, tab as int)));
                assert(rv == seg[0].subrange(tab as int + 1, seg[0].len() as int));
                assert(name@ == trim_spec(rv.subrange(0, find_char_spec(rv, '\t'))));
                assert(parse_short_line(seg[0]) is None);
            }
        }
    } else {
        proof {
            crate::text::lemma_find_char(l@, '\t');
            assert(seg[0] == l@);
            assert(find_char_spec(seg[0], '\t') == seg[0].len());
            assert(parse_short_line(seg[0]) is None);
        }
    }
    let tail = parse_short_cards(ls, i + 1);
    let res = match head {
        Some(c) => {
            let mut v = tail;
            let ghost tv = v@;
            v.insert(0, c);
            proof {
                assert(card_views(v@) =~= seq![v@[0]@] + card_views(tv));
            }
            v
        },
        None => tail,
    };
    proof {
        assert(card_views(res@) =~= short_cards_spec(seg));
    }
    res
}

fn set_active(cards: &mut Vec<BtCard>, name: &str, prof: &str)
    ensures
        card_views(final(cards)@) == set_active_first(card_views(old(cards)@), name@, prof@),
{
    let n = cards.len();
    let mut i: usize = 0;
    while i < n
        invariant
            0 <= i <= n,
            n == cards@.len(),
            *cards == *old(cards),
            forall|j: int| 0 <= j < i ==> (#[trigger] card_views(cards@)[j]).name != name@,
        decreases n - i,
    {
        if str_eq(cards[i].name.as_str(), name) {
            proof {
                lemma_find_view_idx_at(card_views(cards@), name@, i as int);
            }
            let ghost pre = card_views(cards@);
            cards[i].active_profile = Some(String::from_str(prof));
            proof {
                assert(card_views(cards@) =~= set_active_first(pre, name@, prof@));
            }
            return;
        }
        proof {
            assert(card_views(cards@)[i as int].name == cards@[i as int].name@);
        }
        i += 1;
    }
    proof {
        lemma_find_view_idx_at(card_views(cards@), name@, n as int);
    }
}

fn apply_verbose(ls: &Vec<String>, i: usize, cur: Option<String>, cards: Vec<BtCard>) -> (r: Vec<
    BtCard,
>)
    requires
        i <= ls@.len(),
    ensures
        card_views(r@) == verbose_scan(
            views_of(ls@).subrange(i as int, ls@.len() as int),
            match cur {
                Some(c) => Some(c@),
                None => None,
            },
            card_views(cards@),
        ),
    decreases ls@.len() - i,
{
    let ghost seg = views_of(ls@).subrange(i as int, ls@.len() as int);
    if i == ls.len() {
        proof {
            assert(seg =~= Seq::<Seq<char>>::empty());
        }
        return cards;
    }
    proof {
        assert(seg[0] == ls@[i as int]@);
        assert(seg.subrange(1, seg.len() as int) =~= views_of(ls@).subrange(
            i as int + 1,
            ls@.len() as int,
        ));
    }
    let t = str_trim(ls[i].as_str());
    match strip_prefix_str(t, "Name:") {
        Some(rest) => {
            let nm = str_trim(rest);
            apply_verbose(ls, i + 1, Some(String::from_str(nm)), cards)
        },
        None => {
            match strip_prefix_str(t, "Active Profile:") {
                Some(rest) => {
                    let prof = str_trim(rest);
                    match &cur {
                        Some(c) => {
                            let mut cards2 = cards;
                            set_active(&mut cards2, c.as_str(), prof);
                            apply_verbose(ls, i + 1, cur, cards2)
                        },
                        None => apply_verbose(ls, i + 1, cur, cards),
                    }
                },
                None => apply_verbose(ls, i + 1, cur, cards),
            }
        },
    }
}

/// The Bluetooth audio cards visible in the audio server's listings: the
/// short listing names them, the verbose listing carries each card's active
/// profile.  Friendly names are filled in separately, from the Bluetooth
/// daemon's per-device output.
pub fn list_bt_cards(short_listing: &str, verbose_listing: &str) -> (r: Vec<BtCard>)
    ensures
        card_views(r@) == bt_cards_spec(short_listing@, verbose_listing@),
{
    let ls = split_lines(short_listing);
    let cards = parse_short_cards(&ls, 0);
    proof {
        assert(views_of(ls@).subrange(0, ls@.len() as int) =~= lines_spec(short_listing@));
    }
    let vs = split_lines(verbose_listing);
    let r = apply_verbose(&vs, 0, None, cards);
    proof {
        assert(views_of(vs@).subrange(0, vs@.len() as int) =~= lines_spec(verbose_listing@));
    }
    r
}

/// The friendly name in a Bluetooth daemon device report: the first
/// non-empty `Alias:` or `Name:` value.
pub open spec fn alias_scan(ls: Seq<Seq<char>>) -> Option<Seq<char>>
    decreases ls.len(),
{
    if ls.len() == 0 {
        None
    } else {
        let t = trim_spec(ls[0]);
        let rest = ls.subrange(1, ls.len() as int);
        let nm = if starts_with_seq(t, "Alias:"@) {
            Some(trim_spec(t.subrange("Alias:"@.len() as int, t.len() as int)))
        } else if starts_with_seq(t, "Name:"@) {
            Some(trim_spec(t.subrange("Name:"@.len() as int, t.len() as int)))
        } else {
            None
        };
        match nm {
            Some(x) => if x.len() > 0 {
                Some(x)
            } else {
                alias_scan(rest)
            },
            None => alias_scan(rest),
        }
    }
}

fn scan_alias(ls: &Vec<String>, i: usize) -> (r: Option<String>)
    requires
        i <= ls@.len(),
    ensures
        (match r {
            Some(x) => Some(x@),
            None => None,
        }) == alias_scan(views_of(ls@).subrange(i as int, ls@.len() as int)),
    decreases ls@.len() - i,
{
    let ghost seg = views_of(ls@).subrange(i as int, ls@.len() as int);
    if i == ls.len() {
        proof {
            assert(seg =~= Seq::<Seq<char>>::empty());
        }
        return None;
    }
    proof {
        assert(seg[0] == ls@[i as int]@);
        assert(seg.subrange(1, seg.len() as int) =~= views_of(ls@).subrange(
            i as int + 1,
            ls@.len() as int,
        ));
    }
    let t = str_trim(ls[i].as_str());
    let nm = match strip_prefix_str(t, "Alias:") {
        Some(rest) => Some(str_trim(rest)),
        None => match strip_prefix_str(t, "Name:") {
            Some(rest) => Some(str_trim(rest)),
            None => None,
        },
    };
    match nm {
        Some(x) => {
            if x.unicode_len() > 0 {
                Some(String::from_str(x))
            } else {
                scan_alias(ls, i + 1)
            }
        },
        None => scan_alias(ls, i + 1),
    }
}

/// The friendly device name in the Bluetooth daemon's report, if any.
pub fn parse_alias(info: &str) -> (r: Option<String>)
    ensures
        (match r {
            Some(x) => Some(x@),
            None => None,
        }) == alias_scan(lines_spec(info@)),
{
    let ls = split_lines(info);
    let r = scan_alias(&ls, 0);
    proof {
        assert(views_of(ls@).subrange(0, ls@.len() as int) =~= lines_spec(info@));
    }
    r
}

} // verus!
