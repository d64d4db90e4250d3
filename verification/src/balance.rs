use crate::args::Dialect;
use crate::event::{DocEvent, TagKind};
use crate::policy::{
    close_markup, disclosure_label_end, footnote_reference, inline_code, marker_markup,
    open_markup, size_token, task_marker, InlineMarker,
};
use crate::text::{is_white_space, trim_end};
use crate::translate::run;
use vstd::prelude::*;

verus! {

/// What may follow an opening bracket.
pub ghost enum Bracket {
    /// A letter: the bracket opens a tag.
    Opening,
    /// A slash: the bracket closes a tag.
    Closing,
    /// White space: the bracket stands alone.
    Dangling,
}

/// Whether a character makes the bracket before it one of the given kind.
pub open spec fn follows(kind: Bracket, c: char) -> bool {
    match kind {
        Bracket::Opening => 'a' <= c <= 'z',
        Bracket::Closing => c == '/',
        Bracket::Dangling => is_white_space(c),
    }
}

/// How many brackets of the given kind a text holds.
pub open spec fn brackets(s: Seq<char>, kind: Bracket) -> nat
    decreases s.len(),
{
    if s.len() < 2 {
        0
    } else if s[s.len() - 2] == '[' && follows(kind, s.last()) {
        brackets(s.drop_last(), kind) + 1
    } else {
        brackets(s.drop_last(), kind)
    }
}

/// How many tags a piece of markup opens: the brackets that a letter
/// follows.
pub open spec fn opened(s: Seq<char>) -> nat {
    brackets(s, Bracket::Opening)
}

/// How many tags a piece of markup closes: the brackets that a slash
/// follows.
pub open spec fn closed(s: Seq<char>) -> nat {
    brackets(s, Bracket::Closing)
}

/// How many more tags a piece of markup opens than it closes.
pub open spec fn surplus(s: Seq<char>) -> int {
    opened(s) - closed(s)
}

/// Whether every bracket of a text has something behind it that is no white
/// space.
pub open spec fn is_tight(s: Seq<char>) -> bool {
    brackets(s, Bracket::Dangling) == 0 && (s.len() == 0 || s.last() != '[')
}

/// Whether a text holds no opening bracket.
pub open spec fn is_plain(s: Seq<char>) -> bool {
    forall|i: int| 0 <= i < s.len() ==> #[trigger] s[i] != '['
}

/// Whether the texts that a construct carries hold no opening bracket.
pub open spec fn has_plain_data(tag: TagKind) -> bool {
    match tag {
        TagKind::FootnoteDefinition(label) => is_plain(label@),
        TagKind::Link(url) => is_plain(url@),
        TagKind::Image(url, alt) => is_plain(url@) && is_plain(alt@),
        _ => true,
    }
}

/// The constructs whose markup does not pair off by itself.  In ProBoards an
/// image is a single tag that nothing closes, and the head of a table
/// closes by opening the table's body, which the end of the table closes.
pub open spec fn is_unpaired(tag: TagKind, dialect: Dialect) -> bool {
    dialect == Dialect::Proboards && (tag is Image || tag is Table || tag is TableHead)
}

/// The marker that closes what an opening marker opens.
pub open spec fn closing_of(marker: InlineMarker) -> InlineMarker {
    match marker {
        InlineMarker::StrikeOpen => InlineMarker::StrikeClose,
        InlineMarker::SuperscriptOpen => InlineMarker::SuperscriptClose,
        InlineMarker::SubscriptOpen => InlineMarker::SubscriptClose,
        InlineMarker::BoldOpen => InlineMarker::BoldClose,
        InlineMarker::ItalicOpen => InlineMarker::ItalicClose,
        InlineMarker::QuoteOpen => InlineMarker::QuoteClose,
        InlineMarker::DisclosureOpen => InlineMarker::DisclosureClose,
        other => other,
    }
}

/// A text without an opening bracket holds no bracket of any kind.
proof fn lemma_plain_has_no_brackets(s: Seq<char>, kind: Bracket)
    requires
        is_plain(s),
    ensures
        brackets(s, kind) == 0,
    decreases s.len(),
{
    if s.len() >= 2 {
        assert(s[s.len() - 2] != '[');
        lemma_plain_has_no_brackets(s.drop_last(), kind);
    }
}

/// A text without an opening bracket opens and closes nothing.
pub proof fn lemma_plain_text_is_neutral(s: Seq<char>)
    requires
        is_plain(s),
    ensures
        opened(s) == 0,
        closed(s) == 0,
        is_tight(s),
{
    lemma_plain_has_no_brackets(s, Bracket::Opening);
    lemma_plain_has_no_brackets(s, Bracket::Closing);
    lemma_plain_has_no_brackets(s, Bracket::Dangling);
    if s.len() > 0 {
        assert(s[s.len() - 1] != '[');
    }
}

/// Where the first of two texts does not end in an opening bracket, the
/// two together hold the brackets of each.
proof fn lemma_brackets_add_up(a: Seq<char>, b: Seq<char>, kind: Bracket)
    requires
        a.len() == 0 || a.last() != '[',
    ensures
        brackets(a + b, kind) == brackets(a, kind) + brackets(b, kind),
    decreases b.len(),
{
    if b.len() == 0 {
        assert(a + b =~= a);
    } else if a.len() == 0 {
        assert(a + b =~= b);
    } else {
        assert((a + b).drop_last() =~= a + b.drop_last());
        lemma_brackets_add_up(a, b.drop_last(), kind);
        if b.len() == 1 {
            assert((a + b)[(a + b).len() - 2] == a.last());
        } else {
            assert((a + b)[(a + b).len() - 2] == b[b.len() - 2]);
        }
    }
}

/// Two tight texts make a tight text, which opens and closes what each of
/// them does.
pub proof fn lemma_counts_add_up(a: Seq<char>, b: Seq<char>)
    requires
        is_tight(a),
        is_tight(b),
    ensures
        is_tight(a + b),
        opened(a + b) == opened(a) + opened(b),
        closed(a + b) == closed(a) + closed(b),
        surplus(a + b) == surplus(a) + surplus(b),
{
    lemma_brackets_add_up(a, b, Bracket::Opening);
    lemma_brackets_add_up(a, b, Bracket::Closing);
    lemma_brackets_add_up(a, b, Bracket::Dangling);
    if b.len() == 0 {
        assert(a + b =~= a);
    } else {
        assert((a + b).last() == b.last());
    }
}

/// Taking the white space at the end of a tight text away leaves a tight
/// text, which opens and closes what the whole did.
pub proof fn lemma_trimming_keeps_brackets(s: Seq<char>)
    requires
        is_tight(s),
    ensures
        is_tight(trim_end(s)),
        opened(trim_end(s)) == opened(s),
        closed(trim_end(s)) == closed(s),
    decreases s.len(),
{
    if s.len() > 0 && is_white_space(s.last()) {
        lemma_trimming_keeps_brackets(s.drop_last());
    }
}

/// What the snippet `[quote]` opens and closes.
proof fn lemma_quote_opening_counts()
    ensures
        opened("[quote]"@) == 1 && closed("[quote]"@) == 0 && is_tight("[quote]"@),
{
    reveal_strlit("[quote]");
    reveal_with_fuel(brackets, 8);
}

/// What the snippet `[code]` opens and closes.
proof fn lemma_code_opening_counts()
    ensures
        opened("[code]"@) == 1 && closed("[code]"@) == 0 && is_tight("[code]"@),
{
    reveal_strlit("[code]");
    reveal_with_fuel(brackets, 7);
}

/// What the snippet `[list=1]` opens and closes.
proof fn lemma_list_1_opening_counts()
    ensures
        opened("[list=1]"@) == 1 && closed("[list=1]"@) == 0 && is_tight("[list=1]"@),
{
    reveal_strlit("[list=1]");
    reveal_with_fuel(brackets, 9);
}

/// What the snippet `[list]` opens and closes.
proof fn lemma_list_opening_counts()
    ensures
        opened("[list]"@) == 1 && closed("[list]"@) == 0 && is_tight("[list]"@),
{
    reveal_strlit("[list]");
    reveal_with_fuel(brackets, 7);
}

/// What the snippet `[table]` opens and closes.
proof fn lemma_table_opening_counts()
    ensures
        opened("[table]"@) == 1 && closed("[table]"@) == 0 && is_tight("[table]"@),
{
    reveal_strlit("[table]");
    reveal_with_fuel(brackets, 8);
}

/// What the snippet `[/quote]` opens and closes.
proof fn lemma_quote_closing_counts()
    ensures
        opened("[/quote]"@) == 0 && closed("[/quote]"@) == 1 && is_tight("[/quote]"@),
{
    reveal_strlit("[/quote]");
    reveal_with_fuel(brackets, 9);
}

/// What the snippet `[/code]\n` opens and closes.
proof fn lemma_code_closing_counts()
    ensures
        opened("[/code]\n"@) == 0 && closed("[/code]\n"@) == 1 && is_tight("[/code]\n"@),
{
    reveal_strlit("[/code]\n");
    reveal_with_fuel(brackets, 9);
}

/// What the snippet `\n[/list]` opens and closes.
proof fn lemma_list_closing_counts()
    ensures
        opened("\n[/list]"@) == 0 && closed("\n[/list]"@) == 1 && is_tight("\n[/list]"@),
{
    reveal_strlit("\n[/list]");
    reveal_with_fuel(brackets, 9);
}

/// What the snippet `[/table]` opens and closes.
proof fn lemma_table_closing_counts()
    ensures
        opened("[/table]"@) == 0 && closed("[/table]"@) == 1 && is_tight("[/table]"@),
{
    reveal_strlit("[/table]");
    reveal_with_fuel(brackets, 9);
}

/// What the snippet `[/tr]` opens and closes.
proof fn lemma_tr_closing_counts()
    ensures
        opened("[/tr]"@) == 0 && closed("[/tr]"@) == 1 && is_tight("[/tr]"@),
{
    reveal_strlit("[/tr]");
    reveal_with_fuel(brackets, 6);
}

/// What the snippet `[/td]` opens and closes.
proof fn lemma_td_closing_counts()
    ensures
        opened("[/td]"@) == 0 && closed("[/td]"@) == 1 && is_tight("[/td]"@),
{
    reveal_strlit("[/td]");
    reveal_with_fuel(brackets, 6);
}

/// What the snippet `[blockquote]` opens and closes.
proof fn lemma_blockquote_opening_counts()
    ensures
        opened("[blockquote]"@) == 1 && closed("[blockquote]"@) == 0 && is_tight("[blockquote]"@),
{
    reveal_strlit("[blockquote]");
    reveal_with_fuel(brackets, 13);
}

/// What the snippet `\n[pre]` opens and closes.
proof fn lemma_pre_opening_counts()
    ensures
        opened("\n[pre]"@) == 1 && closed("\n[pre]"@) == 0 && is_tight("\n[pre]"@),
{
    reveal_strlit("\n[pre]");
    reveal_with_fuel(brackets, 7);
}

/// What the snippet `\n[ol]` opens and closes.
proof fn lemma_ol_opening_counts()
    ensures
        opened("\n[ol]"@) == 1 && closed("\n[ol]"@) == 0 && is_tight("\n[ol]"@),
{
    reveal_strlit("\n[ol]");
    reveal_with_fuel(brackets, 6);
}

/// What the snippet `\n[ul]` opens and closes.
proof fn lemma_ul_opening_counts()
    ensures
        opened("\n[ul]"@) == 1 && closed("\n[ul]"@) == 0 && is_tight("\n[ul]"@),
{
    reveal_strlit("\n[ul]");
    reveal_with_fuel(brackets, 6);
}

/// What the snippet `\n[li]` opens and closes.
proof fn lemma_li_opening_counts()
    ensures
        opened("\n[li]"@) == 1 && closed("\n[li]"@) == 0 && is_tight("\n[li]"@),
{
    reveal_strlit("\n[li]");
    reveal_with_fuel(brackets, 6);
}

/// What the snippet `\n  [thead][tr]` opens and closes.
proof fn lemma_thead_tr_opening_counts()
    ensures
        opened("\n  [thead][tr]"@) == 2 && closed("\n  [thead][tr]"@) == 0 && is_tight("\n  [thead][tr]"@),
{
    reveal_strlit("\n  [thead][tr]");
    reveal_with_fuel(brackets, 15);
}

/// What the snippet `[/blockquote]` opens and closes.
proof fn lemma_blockquote_closing_counts()
    ensures
        opened("[/blockquote]"@) == 0 && closed("[/blockquote]"@) == 1 && is_tight("[/blockquote]"@),
{
    reveal_strlit("[/blockquote]");
    reveal_with_fuel(brackets, 14);
}

/// What the snippet `[/pre]\n` opens and closes.
proof fn lemma_pre_closing_counts()
    ensures
        opened("[/pre]\n"@) == 0 && closed("[/pre]\n"@) == 1 && is_tight("[/pre]\n"@),
{
    reveal_strlit("[/pre]\n");
    reveal_with_fuel(brackets, 8);
}

/// What the snippet `\n[/ol]` opens and closes.
proof fn lemma_ol_closing_counts()
    ensures
        opened("\n[/ol]"@) == 0 && closed("\n[/ol]"@) == 1 && is_tight("\n[/ol]"@),
{
    reveal_strlit("\n[/ol]");
    reveal_with_fuel(brackets, 7);
}

/// What the snippet `\n[/ul]` opens and closes.
proof fn lemma_ul_closing_counts()
    ensures
        opened("\n[/ul]"@) == 0 && closed("\n[/ul]"@) == 1 && is_tight("\n[/ul]"@),
{
    reveal_strlit("\n[/ul]");
    reveal_with_fuel(brackets, 7);
}

/// What the snippet `[/li]` opens and closes.
proof fn lemma_li_closing_counts()
    ensures
        opened("[/li]"@) == 0 && closed("[/li]"@) == 1 && is_tight("[/li]"@),
{
    reveal_strlit("[/li]");
    reveal_with_fuel(brackets, 6);
}

/// What the snippet `\n  [/tbody]\n[/table]` opens and closes.
proof fn lemma_tbody_table_closing_counts()
    ensures
        opened("\n  [/tbody]\n[/table]"@) == 0 && closed("\n  [/tbody]\n[/table]"@) == 2 && is_tight("\n  [/tbody]\n[/table]"@),
{
    reveal_strlit("\n  [/tbody]\n[/table]");
    reveal_with_fuel(brackets, 21);
}

/// What the snippet `[/tr][/thead]\n  [tbody]` opens and closes.
proof fn lemma_tr_thead_tbody_closing_counts()
    ensures
        opened("[/tr][/thead]\n  [tbody]"@) == 1 && closed("[/tr][/thead]\n  [tbody]"@) == 2 && is_tight("[/tr][/thead]\n  [tbody]"@),
{
    reveal_strlit("[/tr][/thead]\n  [tbody]");
    reveal_with_fuel(brackets, 24);
}

/// What the snippet `\n[size="` opens and closes.
proof fn lemma_size_opening_counts()
    ensures
        opened("\n[size=\""@) == 1 && closed("\n[size=\""@) == 0 && is_tight("\n[size=\""@),
{
    reveal_strlit("\n[size=\"");
    reveal_with_fuel(brackets, 9);
}

/// What the snippet `\n\n[font size="` opens and closes.
proof fn lemma_font_size_opening_counts()
    ensures
        opened("\n\n[font size=\""@) == 1 && closed("\n\n[font size=\""@) == 0 && is_tight("\n\n[font size=\""@),
{
    reveal_strlit("\n\n[font size=\"");
    reveal_with_fuel(brackets, 15);
}

/// What the snippet `"][b][u]` opens and closes.
proof fn lemma_b_u_opening_counts()
    ensures
        opened("\"][b][u]"@) == 2 && closed("\"][b][u]"@) == 0 && is_tight("\"][b][u]"@),
{
    reveal_strlit("\"][b][u]");
    reveal_with_fuel(brackets, 9);
}

/// What the snippet `[/u][/b][/size]\n` opens and closes.
proof fn lemma_u_b_size_closing_counts()
    ensures
        opened("[/u][/b][/size]\n"@) == 0 && closed("[/u][/b][/size]\n"@) == 3 && is_tight("[/u][/b][/size]\n"@),
{
    reveal_strlit("[/u][/b][/size]\n");
    reveal_with_fuel(brackets, 17);
}

/// What the snippet `[/u][/b][/font]\n\n` opens and closes.
proof fn lemma_u_b_font_closing_counts()
    ensures
        opened("[/u][/b][/font]\n\n"@) == 0 && closed("[/u][/b][/font]\n\n"@) == 3 && is_tight("[/u][/b][/font]\n\n"@),
{
    reveal_strlit("[/u][/b][/font]\n\n");
    reveal_with_fuel(brackets, 18);
}

/// What the snippet `[url=` opens and closes.
proof fn lemma_url_opening_counts()
    ensures
        opened("[url="@) == 1 && closed("[url="@) == 0 && is_tight("[url="@),
{
    reveal_strlit("[url=");
    reveal_with_fuel(brackets, 6);
}

/// What the snippet `[/url]` opens and closes.
proof fn lemma_url_closing_counts()
    ensures
        opened("[/url]"@) == 0 && closed("[/url]"@) == 1 && is_tight("[/url]"@),
{
    reveal_strlit("[/url]");
    reveal_with_fuel(brackets, 7);
}

/// What the snippet `[a href="` opens and closes.
proof fn lemma_a_href_opening_counts()
    ensures
        opened("[a href=\""@) == 1 && closed("[a href=\""@) == 0 && is_tight("[a href=\""@),
{
    reveal_strlit("[a href=\"");
    reveal_with_fuel(brackets, 10);
}

/// What the snippet `[img]` opens and closes.
proof fn lemma_img_opening_counts()
    ensures
        opened("[img]"@) == 1 && closed("[img]"@) == 0 && is_tight("[img]"@),
{
    reveal_strlit("[img]");
    reveal_with_fuel(brackets, 6);
}

/// What the snippet `[/img]` opens and closes.
proof fn lemma_img_closing_counts()
    ensures
        opened("[/img]"@) == 0 && closed("[/img]"@) == 1 && is_tight("[/img]"@),
{
    reveal_strlit("[/img]");
    reveal_with_fuel(brackets, 7);
}

/// What the snippet `[img src="` opens and closes.
proof fn lemma_img_src_opening_counts()
    ensures
        opened("[img src=\""@) == 1 && closed("[img src=\""@) == 0 && is_tight("[img src=\""@),
{
    reveal_strlit("[img src=\"");
    reveal_with_fuel(brackets, 11);
}

/// What the snippet `" alt="` opens and closes.
proof fn lemma_alt_opening_counts()
    ensures
        opened("\" alt=\""@) == 0 && closed("\" alt=\""@) == 0 && is_tight("\" alt=\""@),
{
    reveal_strlit("\" alt=\"");
    reveal_with_fuel(brackets, 8);
}

/// What the snippet `[font=Courier New]` opens and closes.
proof fn lemma_font_courier_new_opening_counts()
    ensures
        opened("[font=Courier New]"@) == 1 && closed("[font=Courier New]"@) == 0 && is_tight("[font=Courier New]"@),
{
    reveal_strlit("[font=Courier New]");
    reveal_with_fuel(brackets, 19);
}

/// What the snippet `[/font]` opens and closes.
proof fn lemma_font_closing_counts()
    ensures
        opened("[/font]"@) == 0 && closed("[/font]"@) == 1 && is_tight("[/font]"@),
{
    reveal_strlit("[/font]");
    reveal_with_fuel(brackets, 8);
}

/// What the snippet `[/tt]` opens and closes.
proof fn lemma_tt_closing_counts()
    ensures
        opened("[/tt]"@) == 0 && closed("[/tt]"@) == 1 && is_tight("[/tt]"@),
{
    reveal_strlit("[/tt]");
    reveal_with_fuel(brackets, 6);
}

/// What the snippet `[sup]` opens and closes.
proof fn lemma_sup_opening_counts()
    ensures
        opened("[sup]"@) == 1 && closed("[sup]"@) == 0 && is_tight("[sup]"@),
{
    reveal_strlit("[sup]");
    reveal_with_fuel(brackets, 6);
}

/// What the snippet `[/sup]` opens and closes.
proof fn lemma_sup_closing_counts()
    ensures
        opened("[/sup]"@) == 0 && closed("[/sup]"@) == 1 && is_tight("[/sup]"@),
{
    reveal_strlit("[/sup]");
    reveal_with_fuel(brackets, 7);
}

/// What the snippet `[sub]` opens and closes.
proof fn lemma_sub_opening_counts()
    ensures
        opened("[sub]"@) == 1 && closed("[sub]"@) == 0 && is_tight("[sub]"@),
{
    reveal_strlit("[sub]");
    reveal_with_fuel(brackets, 6);
}

/// What the snippet `[/sub]` opens and closes.
proof fn lemma_sub_closing_counts()
    ensures
        opened("[/sub]"@) == 0 && closed("[/sub]"@) == 1 && is_tight("[/sub]"@),
{
    reveal_strlit("[/sub]");
    reveal_with_fuel(brackets, 7);
}

/// What the snippet `\n[spoiler=` opens and closes.
proof fn lemma_spoiler_opening_counts()
    ensures
        opened("\n[spoiler="@) == 1 && closed("\n[spoiler="@) == 0 && is_tight("\n[spoiler="@),
{
    reveal_strlit("\n[spoiler=");
    reveal_with_fuel(brackets, 11);
}

/// What the snippet `[/spoiler]\n` opens and closes.
proof fn lemma_spoiler_closing_counts()
    ensures
        opened("[/spoiler]\n"@) == 0 && closed("[/spoiler]\n"@) == 1 && is_tight("[/spoiler]\n"@),
{
    reveal_strlit("[/spoiler]\n");
    reveal_with_fuel(brackets, 12);
}

/// What the opening snippets that both dialects or XenForo use open and close.
proof fn lemma_common_opening_counts()
    ensures
        opened("\n"@) == 0 && closed("\n"@) == 0 && is_tight("\n"@),
        opened("[quote]"@) == 1 && closed("[quote]"@) == 0 && is_tight("[quote]"@),
        opened("[code]"@) == 1 && closed("[code]"@) == 0 && is_tight("[code]"@),
        opened("[list=1]"@) == 1 && closed("[list=1]"@) == 0 && is_tight("[list=1]"@),
        opened("[list]"@) == 1 && closed("[list]"@) == 0 && is_tight("[list]"@),
        opened("\n[*]"@) == 0 && closed("\n[*]"@) == 0 && is_tight("\n[*]"@),
        opened("[table]"@) == 1 && closed("[table]"@) == 0 && is_tight("[table]"@),
        opened("[tr]"@) == 1 && closed("[tr]"@) == 0 && is_tight("[tr]"@),
        opened("[td]"@) == 1 && closed("[td]"@) == 0 && is_tight("[td]"@),
        opened("[i]"@) == 1 && closed("[i]"@) == 0 && is_tight("[i]"@),
        opened("[b]"@) == 1 && closed("[b]"@) == 0 && is_tight("[b]"@),
        opened("[s]"@) == 1 && closed("[s]"@) == 0 && is_tight("[s]"@),
{
    assert(opened("\n"@) == 0 && closed("\n"@) == 0 && is_tight("\n"@)) by {
        reveal_strlit("\n");
        reveal_with_fuel(brackets, 2);
    }
    lemma_quote_opening_counts();
    lemma_code_opening_counts();
    lemma_list_1_opening_counts();
    lemma_list_opening_counts();
    assert(opened("\n[*]"@) == 0 && closed("\n[*]"@) == 0 && is_tight("\n[*]"@)) by {
        reveal_strlit("\n[*]");
        reveal_with_fuel(brackets, 5);
    }
    lemma_table_opening_counts();
    assert(opened("[tr]"@) == 1 && closed("[tr]"@) == 0 && is_tight("[tr]"@)) by {
        reveal_strlit("[tr]");
        reveal_with_fuel(brackets, 5);
    }
    assert(opened("[td]"@) == 1 && closed("[td]"@) == 0 && is_tight("[td]"@)) by {
        reveal_strlit("[td]");
        reveal_with_fuel(brackets, 5);
    }
    assert(opened("[i]"@) == 1 && closed("[i]"@) == 0 && is_tight("[i]"@)) by {
        reveal_strlit("[i]");
        reveal_with_fuel(brackets, 4);
    }
    assert(opened("[b]"@) == 1 && closed("[b]"@) == 0 && is_tight("[b]"@)) by {
        reveal_strlit("[b]");
        reveal_with_fuel(brackets, 4);
    }
    assert(opened("[s]"@) == 1 && closed("[s]"@) == 0 && is_tight("[s]"@)) by {
        reveal_strlit("[s]");
        reveal_with_fuel(brackets, 4);
    }
}

/// What the closing snippets that both dialects or XenForo use open and close.
proof fn lemma_common_closing_counts()
    ensures
        opened("[/quote]"@) == 0 && closed("[/quote]"@) == 1 && is_tight("[/quote]"@),
        opened("[/code]\n"@) == 0 && closed("[/code]\n"@) == 1 && is_tight("[/code]\n"@),
        opened("\n[/list]"@) == 0 && closed("\n[/list]"@) == 1 && is_tight("\n[/list]"@),
        opened("[/table]"@) == 0 && closed("[/table]"@) == 1 && is_tight("[/table]"@),
        opened("[/tr]"@) == 0 && closed("[/tr]"@) == 1 && is_tight("[/tr]"@),
        opened("[/td]"@) == 0 && closed("[/td]"@) == 1 && is_tight("[/td]"@),
        opened("[/i]"@) == 0 && closed("[/i]"@) == 1 && is_tight("[/i]"@),
        opened("[/b]"@) == 0 && closed("[/b]"@) == 1 && is_tight("[/b]"@),
        opened("[/s]"@) == 0 && closed("[/s]"@) == 1 && is_tight("[/s]"@),
{
    lemma_quote_closing_counts();
    lemma_code_closing_counts();
    lemma_list_closing_counts();
    lemma_table_closing_counts();
    lemma_tr_closing_counts();
    lemma_td_closing_counts();
    assert(opened("[/i]"@) == 0 && closed("[/i]"@) == 1 && is_tight("[/i]"@)) by {
        reveal_strlit("[/i]");
        reveal_with_fuel(brackets, 5);
    }
    assert(opened("[/b]"@) == 0 && closed("[/b]"@) == 1 && is_tight("[/b]"@)) by {
        reveal_strlit("[/b]");
        reveal_with_fuel(brackets, 5);
    }
    assert(opened("[/s]"@) == 0 && closed("[/s]"@) == 1 && is_tight("[/s]"@)) by {
        reveal_strlit("[/s]");
        reveal_with_fuel(brackets, 5);
    }
}

/// What the opening snippets of ProBoards open and close.
proof fn lemma_proboards_opening_counts()
    ensures
        opened("[blockquote]"@) == 1 && closed("[blockquote]"@) == 0 && is_tight("[blockquote]"@),
        opened("\n[pre]"@) == 1 && closed("\n[pre]"@) == 0 && is_tight("\n[pre]"@),
        opened("\n[ol]"@) == 1 && closed("\n[ol]"@) == 0 && is_tight("\n[ol]"@),
        opened("\n[ul]"@) == 1 && closed("\n[ul]"@) == 0 && is_tight("\n[ul]"@),
        opened("\n[li]"@) == 1 && closed("\n[li]"@) == 0 && is_tight("\n[li]"@),
        opened("\n  [thead][tr]"@) == 2 && closed("\n  [thead][tr]"@) == 0 && is_tight("\n  [thead][tr]"@),
{
    lemma_blockquote_opening_counts();
    lemma_pre_opening_counts();
    lemma_ol_opening_counts();
    lemma_ul_opening_counts();
    lemma_li_opening_counts();
    lemma_thead_tr_opening_counts();
}

/// What the closing snippets of ProBoards open and close.
proof fn lemma_proboards_closing_counts()
    ensures
        opened("[/blockquote]"@) == 0 && closed("[/blockquote]"@) == 1 && is_tight("[/blockquote]"@),
        opened("[/pre]\n"@) == 0 && closed("[/pre]\n"@) == 1 && is_tight("[/pre]\n"@),
        opened("\n[/ol]"@) == 0 && closed("\n[/ol]"@) == 1 && is_tight("\n[/ol]"@),
        opened("\n[/ul]"@) == 0 && closed("\n[/ul]"@) == 1 && is_tight("\n[/ul]"@),
        opened("[/li]"@) == 0 && closed("[/li]"@) == 1 && is_tight("[/li]"@),
        opened("\n  [/tbody]\n[/table]"@) == 0 && closed("\n  [/tbody]\n[/table]"@) == 2 && is_tight("\n  [/tbody]\n[/table]"@),
        opened("[/tr][/thead]\n  [tbody]"@) == 1 && closed("[/tr][/thead]\n  [tbody]"@) == 2 && is_tight("[/tr][/thead]\n  [tbody]"@),
{
    lemma_blockquote_closing_counts();
    lemma_pre_closing_counts();
    lemma_ol_closing_counts();
    lemma_ul_closing_counts();
    lemma_li_closing_counts();
    lemma_tbody_table_closing_counts();
    lemma_tr_thead_tbody_closing_counts();
}

/// What the snippets of a heading open and close.
proof fn lemma_heading_counts()
    ensures
        opened("\n[size=\""@) == 1 && closed("\n[size=\""@) == 0 && is_tight("\n[size=\""@),
        opened("\n\n[font size=\""@) == 1 && closed("\n\n[font size=\""@) == 0 && is_tight("\n\n[font size=\""@),
        opened("\"][b][u]"@) == 2 && closed("\"][b][u]"@) == 0 && is_tight("\"][b][u]"@),
        opened("[/u][/b][/size]\n"@) == 0 && closed("[/u][/b][/size]\n"@) == 3 && is_tight("[/u][/b][/size]\n"@),
        opened("[/u][/b][/font]\n\n"@) == 0 && closed("[/u][/b][/font]\n\n"@) == 3 && is_tight("[/u][/b][/font]\n\n"@),
{
    lemma_size_opening_counts();
    lemma_font_size_opening_counts();
    lemma_b_u_opening_counts();
    lemma_u_b_size_closing_counts();
    lemma_u_b_font_closing_counts();
}

/// What the snippets around an address or a label open and close.
proof fn lemma_data_counts()
    ensures
        opened("[url="@) == 1 && closed("[url="@) == 0 && is_tight("[url="@),
        opened("]"@) == 0 && closed("]"@) == 0 && is_tight("]"@),
        opened("[/url]"@) == 0 && closed("[/url]"@) == 1 && is_tight("[/url]"@),
        opened("[a href=\""@) == 1 && closed("[a href=\""@) == 0 && is_tight("[a href=\""@),
        opened("\"]"@) == 0 && closed("\"]"@) == 0 && is_tight("\"]"@),
        opened("[/a]"@) == 0 && closed("[/a]"@) == 1 && is_tight("[/a]"@),
        opened("[img]"@) == 1 && closed("[img]"@) == 0 && is_tight("[img]"@),
        opened("[/img]"@) == 0 && closed("[/img]"@) == 1 && is_tight("[/img]"@),
        opened("[img src=\""@) == 1 && closed("[img src=\""@) == 0 && is_tight("[img src=\""@),
        opened("\" alt=\""@) == 0 && closed("\" alt=\""@) == 0 && is_tight("\" alt=\""@),
        opened(": "@) == 0 && closed(": "@) == 0 && is_tight(": "@),
{
    lemma_url_opening_counts();
    assert(opened("]"@) == 0 && closed("]"@) == 0 && is_tight("]"@)) by {
        reveal_strlit("]");
        reveal_with_fuel(brackets, 2);
    }
    lemma_url_closing_counts();
    lemma_a_href_opening_counts();
    assert(opened("\"]"@) == 0 && closed("\"]"@) == 0 && is_tight("\"]"@)) by {
        reveal_strlit("\"]");
        reveal_with_fuel(brackets, 3);
    }
    assert(opened("[/a]"@) == 0 && closed("[/a]"@) == 1 && is_tight("[/a]"@)) by {
        reveal_strlit("[/a]");
        reveal_with_fuel(brackets, 5);
    }
    lemma_img_opening_counts();
    lemma_img_closing_counts();
    lemma_img_src_opening_counts();
    lemma_alt_opening_counts();
    assert(opened(": "@) == 0 && closed(": "@) == 0 && is_tight(": "@)) by {
        reveal_strlit(": ");
        reveal_with_fuel(brackets, 3);
    }
}

/// What the snippets of the inline events open and close.
proof fn lemma_inline_counts()
    ensures
        opened("[font=Courier New]"@) == 1 && closed("[font=Courier New]"@) == 0 && is_tight("[font=Courier New]"@),
        opened("[/font]"@) == 0 && closed("[/font]"@) == 1 && is_tight("[/font]"@),
        opened("[tt]"@) == 1 && closed("[tt]"@) == 0 && is_tight("[tt]"@),
        opened("[/tt]"@) == 0 && closed("[/tt]"@) == 1 && is_tight("[/tt]"@),
        opened("[sup]"@) == 1 && closed("[sup]"@) == 0 && is_tight("[sup]"@),
        opened("[/sup]"@) == 0 && closed("[/sup]"@) == 1 && is_tight("[/sup]"@),
        opened(" "@) == 0 && closed(" "@) == 0 && is_tight(" "@),
{
    lemma_font_courier_new_opening_counts();
    lemma_font_closing_counts();
    assert(opened("[tt]"@) == 1 && closed("[tt]"@) == 0 && is_tight("[tt]"@)) by {
        reveal_strlit("[tt]");
        reveal_with_fuel(brackets, 5);
    }
    lemma_tt_closing_counts();
    lemma_sup_opening_counts();
    lemma_sup_closing_counts();
    assert(opened(" "@) == 0 && closed(" "@) == 0 && is_tight(" "@)) by {
        reveal_strlit(" ");
        reveal_with_fuel(brackets, 2);
    }
}

/// What the other snippets of the inline markers open and close.
proof fn lemma_marker_counts()
    ensures
        opened("[sub]"@) == 1 && closed("[sub]"@) == 0 && is_tight("[sub]"@),
        opened("[/sub]"@) == 0 && closed("[/sub]"@) == 1 && is_tight("[/sub]"@),
        opened("\n[spoiler="@) == 1 && closed("\n[spoiler="@) == 0 && is_tight("\n[spoiler="@),
        opened("[/spoiler]\n"@) == 0 && closed("[/spoiler]\n"@) == 1 && is_tight("[/spoiler]\n"@),
{
    lemma_sub_opening_counts();
    lemma_sub_closing_counts();
    lemma_spoiler_opening_counts();
    lemma_spoiler_closing_counts();
}

/// What the markup of the constructs that carry nothing opens and closes in
/// XenForo.
proof fn lemma_bare_xenforo(tag: TagKind)
    requires
        !(tag is Heading || tag is FootnoteDefinition || tag is Link || tag is Image),
    ensures
        is_tight(open_markup(tag, Dialect::Xenforo)),
        is_tight(close_markup(tag, Dialect::Xenforo)),
        surplus(open_markup(tag, Dialect::Xenforo)) + surplus(close_markup(tag, Dialect::Xenforo))
            == 0,
        tag is Paragraph ==> surplus(open_markup(tag, Dialect::Xenforo)) == 0,
{
    lemma_common_opening_counts();
    lemma_common_closing_counts();
    lemma_plain_text_is_neutral(Seq::<char>::empty());
}

/// What the markup of the constructs that carry nothing opens and closes in
/// ProBoards.
proof fn lemma_bare_proboards(tag: TagKind)
    requires
        !(tag is Heading || tag is FootnoteDefinition || tag is Link || tag is Image),
    ensures
        is_tight(open_markup(tag, Dialect::Proboards)),
        is_tight(close_markup(tag, Dialect::Proboards)),
        !(tag is Table || tag is TableHead) ==> surplus(open_markup(tag, Dialect::Proboards))
            + surplus(close_markup(tag, Dialect::Proboards)) == 0,
        tag is Paragraph ==> surplus(open_markup(tag, Dialect::Proboards)) == 0,
        tag is Table ==> surplus(open_markup(tag, Dialect::Proboards)) + surplus(
            close_markup(tag, Dialect::Proboards),
        ) == -1,
        tag is TableHead ==> surplus(open_markup(tag, Dialect::Proboards)) + surplus(
            close_markup(tag, Dialect::Proboards),
        ) == 1,
{
    lemma_common_opening_counts();
    lemma_common_closing_counts();
    lemma_proboards_opening_counts();
    lemma_proboards_closing_counts();
}

/// What the markup of a heading opens and closes.
proof fn lemma_heading(tag: TagKind, dialect: Dialect)
    requires
        tag is Heading,
    ensures
        is_tight(open_markup(tag, dialect)),
        is_tight(close_markup(tag, dialect)),
        surplus(open_markup(tag, dialect)) + surplus(close_markup(tag, dialect)) == 0,
{
    lemma_heading_counts();
    let digit = seq![size_token(tag->Heading_0)];
    let lead = match dialect {
        Dialect::Xenforo => "\n[size=\""@,
        Dialect::Proboards => "\n\n[font size=\""@,
    };
    let rest = "\"][b][u]"@;
    assert(is_plain(digit));
    lemma_plain_text_is_neutral(digit);
    lemma_counts_add_up(lead, digit);
    lemma_counts_add_up(lead + digit, rest);
    assert(open_markup(tag, dialect) =~= lead + digit + rest);
}

/// What the markup of a footnote definition opens and closes: nothing.
proof fn lemma_footnote(tag: TagKind, dialect: Dialect)
    requires
        tag is FootnoteDefinition,
        has_plain_data(tag),
    ensures
        is_tight(open_markup(tag, dialect)),
        is_tight(close_markup(tag, dialect)),
        surplus(open_markup(tag, dialect)) + surplus(close_markup(tag, dialect)) == 0,
{
    reveal_strlit("\n");
    reveal_strlit(": ");
    lemma_plain_text_is_neutral(open_markup(tag, dialect));
    lemma_plain_text_is_neutral(close_markup(tag, dialect));
}

/// What the markup of a link opens and closes.
proof fn lemma_link(tag: TagKind, dialect: Dialect)
    requires
        tag is Link,
        has_plain_data(tag),
    ensures
        is_tight(open_markup(tag, dialect)),
        is_tight(close_markup(tag, dialect)),
        surplus(open_markup(tag, dialect)) + surplus(close_markup(tag, dialect)) == 0,
{
    lemma_data_counts();
    let url = tag->Link_0@;
    let (lead, trail) = match dialect {
        Dialect::Xenforo => ("[url="@, "]"@),
        Dialect::Proboards => ("[a href=\""@, "\"]"@),
    };
    lemma_plain_text_is_neutral(url);
    lemma_counts_add_up(lead, url);
    lemma_counts_add_up(lead + url, trail);
}

/// What the markup of an image opens and closes: in XenForo a tag and its
/// end, in ProBoards a single tag that nothing closes.
proof fn lemma_image(tag: TagKind, dialect: Dialect)
    requires
        tag is Image,
        has_plain_data(tag),
    ensures
        is_tight(open_markup(tag, dialect)),
        is_tight(close_markup(tag, dialect)),
        close_markup(tag, dialect) == Seq::<char>::empty(),
        closed(close_markup(tag, dialect)) == 0 && opened(close_markup(tag, dialect)) == 0,
        dialect == Dialect::Xenforo ==> surplus(open_markup(tag, dialect)) == 0,
        dialect == Dialect::Proboards ==> opened(open_markup(tag, dialect)) == 1 && closed(
            open_markup(tag, dialect),
        ) == 0,
{
    lemma_data_counts();
    let url = tag->Image_0@;
    let alt = tag->Image_1@;
    lemma_plain_text_is_neutral(url);
    lemma_plain_text_is_neutral(alt);
    lemma_plain_text_is_neutral(Seq::<char>::empty());
    match dialect {
        Dialect::Xenforo => {
            lemma_counts_add_up("[img]"@, url);
            lemma_counts_add_up("[img]"@ + url, "[/img]"@);
        },
        Dialect::Proboards => {
            let lead = "[img src=\""@;
            let middle = "\" alt=\""@;
            lemma_counts_add_up(lead, url);
            lemma_counts_add_up(lead + url, middle);
            lemma_counts_add_up(lead + url + middle, alt);
            lemma_counts_add_up(lead + url + middle + alt, "\"]"@);
        },
    }
}

/// The markup of every construct is tight, where the texts that the
/// construct carries hold no opening bracket.
pub proof fn lemma_markup_is_tight(tag: TagKind, dialect: Dialect)
    requires
        has_plain_data(tag),
    ensures
        is_tight(open_markup(tag, dialect)),
        is_tight(close_markup(tag, dialect)),
        tag is Paragraph ==> surplus(open_markup(tag, dialect)) == 0,
{
    match tag {
        TagKind::Heading(_) => lemma_heading(tag, dialect),
        TagKind::FootnoteDefinition(_) => lemma_footnote(tag, dialect),
        TagKind::Link(_) => lemma_link(tag, dialect),
        TagKind::Image(_, _) => lemma_image(tag, dialect),
        _ => match dialect {
            Dialect::Xenforo => lemma_bare_xenforo(tag),
            Dialect::Proboards => lemma_bare_proboards(tag),
        },
    }
}

/// Bracket balance, construct by construct: the closing markup of a
/// construct closes as many tags as its opening markup has opened and left
/// open.  This holds where the texts that the construct carries (an address,
/// a label) hold no opening bracket of their own, and for every construct
/// but the unpaired ones.  The bullet of a XenForo list item is no tag.
pub proof fn lemma_construct_is_balanced(tag: TagKind, dialect: Dialect)
    requires
        has_plain_data(tag),
        !is_unpaired(tag, dialect),
    ensures
        surplus(open_markup(tag, dialect)) + surplus(close_markup(tag, dialect)) == 0,
        surplus(open_markup(tag, dialect) + close_markup(tag, dialect)) == 0,
{
    match tag {
        TagKind::Heading(_) => lemma_heading(tag, dialect),
        TagKind::FootnoteDefinition(_) => lemma_footnote(tag, dialect),
        TagKind::Link(_) => lemma_link(tag, dialect),
        TagKind::Image(_, _) => lemma_image(tag, dialect),
        _ => match dialect {
            Dialect::Xenforo => lemma_bare_xenforo(tag),
            Dialect::Proboards => lemma_bare_proboards(tag),
        },
    }
    lemma_counts_add_up(open_markup(tag, dialect), close_markup(tag, dialect));
}

/// A table with its head is balanced in every dialect: what the head
/// leaves open, the end of the table closes.
pub proof fn lemma_table_is_balanced(dialect: Dialect)
    ensures
        surplus(open_markup(TagKind::Table, dialect)) + surplus(
            open_markup(TagKind::TableHead, dialect),
        ) + surplus(close_markup(TagKind::TableHead, dialect)) + surplus(
            close_markup(TagKind::Table, dialect),
        ) == 0,
{
    match dialect {
        Dialect::Xenforo => {
            lemma_bare_xenforo(TagKind::Table);
            lemma_bare_xenforo(TagKind::TableHead);
        },
        Dialect::Proboards => {
            lemma_bare_proboards(TagKind::Table);
            lemma_bare_proboards(TagKind::TableHead);
        },
    }
}

/// An image in ProBoards is a single tag that nothing closes.
pub proof fn lemma_image_is_one_tag(tag: TagKind)
    requires
        tag is Image,
        has_plain_data(tag),
    ensures
        opened(open_markup(tag, Dialect::Proboards)) == 1,
        closed(open_markup(tag, Dialect::Proboards)) == 0,
        close_markup(tag, Dialect::Proboards) == Seq::<char>::empty(),
{
    lemma_image(tag, Dialect::Proboards);
}

/// The markers of inline markup pair off as the constructs do.  A dialect
/// has the closing marker of a construct exactly when it has the opening
/// one, and their markup is then balanced; a dialect without disclosures
/// has no markup for any part of one, so that no bracket is left over.
pub proof fn lemma_markers_are_balanced(marker: InlineMarker, dialect: Dialect)
    requires
        marker.opens(),
    ensures
        !closing_of(marker).opens(),
        marker_markup(marker, dialect) is Some <==> marker_markup(closing_of(marker), dialect)
            is Some,
        marker_markup(marker, dialect) is Some ==> surplus(marker_markup(marker, dialect)->0)
            + surplus(marker_markup(closing_of(marker), dialect)->0) == 0,
        marker_markup(InlineMarker::DisclosureOpen, dialect) is Some <==> disclosure_label_end(
            dialect,
        ) is Some,
{
    lemma_common_opening_counts();
    lemma_common_closing_counts();
    lemma_proboards_opening_counts();
    lemma_proboards_closing_counts();
    lemma_inline_counts();
    lemma_marker_counts();
}

/// The events that the balance of a whole document is stated for: the
/// constructs that pair off, with texts that hold no opening bracket, and
/// the inline events that emit no tag or a tag with its end.
pub open spec fn keeps_balance(event: DocEvent, dialect: Dialect) -> bool {
    match event {
        DocEvent::StartTag(tag) => has_plain_data(tag) && !is_unpaired(tag, dialect),
        DocEvent::EndTag(tag) => has_plain_data(tag) && !is_unpaired(tag, dialect),
        DocEvent::Text(text) => is_plain(text@),
        DocEvent::InlineCode(code) => is_plain(code@),
        DocEvent::FootnoteReference(label) => is_plain(label@),
        DocEvent::SoftBreak => true,
        DocEvent::HardBreak => true,
        DocEvent::TaskListMarker(_) => true,
        DocEvent::RawInline(_) => false,
        DocEvent::ThematicBreak => false,
    }
}

/// The markup of a construct goes by its kind and by the texts that it
/// carries, and by nothing else.
pub proof fn lemma_markup_goes_by_shape(a: TagKind, b: TagKind, dialect: Dialect)
    requires
        a@ == b@,
    ensures
        open_markup(a, dialect) == open_markup(b, dialect),
        close_markup(a, dialect) == close_markup(b, dialect),
        has_plain_data(a) == has_plain_data(b),
        is_unpaired(a, dialect) == is_unpaired(b, dialect),
{
}

/// The constructs that are open after a sequence of events, the innermost
/// last; none where an event closes what is not the innermost open
/// construct.  An end closes a start of the same kind that carries the same
/// texts.
pub open spec fn open_constructs(events: Seq<DocEvent>) -> Option<Seq<TagKind>>
    decreases events.len(),
{
    if events.len() == 0 {
        Some(Seq::empty())
    } else {
        match open_constructs(events.drop_last()) {
            None => None,
            Some(stack) => match events.last() {
                DocEvent::StartTag(tag) => Some(stack.push(tag)),
                DocEvent::EndTag(tag) => if stack.len() > 0 && stack.last()@ == tag@ {
                    Some(stack.drop_last())
                } else {
                    None
                },
                _ => Some(stack),
            },
        }
    }
}

/// How many tags the open constructs have opened and left open.
pub open spec fn left_open(stack: Seq<TagKind>, dialect: Dialect) -> int
    decreases stack.len(),
{
    if stack.len() == 0 {
        0
    } else {
        left_open(stack.drop_last(), dialect) + surplus(open_markup(stack.last(), dialect))
    }
}

/// What the inline events emit is tight, and closes what it opens.
proof fn lemma_inline_events(text: Seq<char>, dialect: Dialect)
    requires
        is_plain(text),
    ensures
        is_tight(inline_code(text, dialect)) && surplus(inline_code(text, dialect)) == 0,
        is_tight(footnote_reference(text, dialect)) && surplus(footnote_reference(text, dialect))
            == 0,
        is_tight(" "@) && surplus(" "@) == 0,
        is_tight("\n"@) && surplus("\n"@) == 0,
        is_tight(task_marker(true)) && surplus(task_marker(true)) == 0,
        is_tight(task_marker(false)) && surplus(task_marker(false)) == 0,
{
    lemma_inline_counts();
    lemma_common_opening_counts();
    lemma_plain_text_is_neutral(text);
    lemma_plain_text_is_neutral(task_marker(true));
    lemma_plain_text_is_neutral(task_marker(false));
    let label = seq!['\u{231c}'] + text + seq!['\u{231d}'];
    assert(is_plain(label));
    lemma_plain_text_is_neutral(label);
    match dialect {
        Dialect::Xenforo => {
            lemma_counts_add_up("[font=Courier New]"@, text);
            lemma_counts_add_up("[font=Courier New]"@ + text, "[/font]"@);
            assert(footnote_reference(text, dialect) =~= label);
        },
        Dialect::Proboards => {
            lemma_counts_add_up("[tt]"@, text);
            lemma_counts_add_up("[tt]"@ + text, "[/tt]"@);
            lemma_counts_add_up("[sup]"@, label);
            lemma_counts_add_up("[sup]"@ + label, "[/sup]"@);
            assert(footnote_reference(text, dialect) =~= "[sup]"@ + label + "[/sup]"@);
        },
    }
}

/// Bracket balance at any depth of nesting.  After any sequence of events
/// that keep the balance and close only the innermost open construct, the
/// output is tight, and it has opened and not closed exactly the tags that
/// the constructs which are still open have left open.
pub proof fn lemma_nesting_keeps_balance(events: Seq<DocEvent>, dialect: Dialect)
    requires
        forall|i: int| 0 <= i < events.len() ==> keeps_balance(#[trigger] events[i], dialect),
        open_constructs(events) is Some,
    ensures
        run(events, dialect).failure is None,
        is_tight(run(events, dialect).state.output),
        surplus(run(events, dialect).state.output) == left_open(
            open_constructs(events)->0,
            dialect,
        ),
    decreases events.len(),
{
    if events.len() == 0 {
        lemma_plain_text_is_neutral(Seq::<char>::empty());
    } else {
        let before = events.drop_last();
        let event = events.last();
        assert forall|i: int| 0 <= i < before.len() implies keeps_balance(
            #[trigger] before[i],
            dialect,
        ) by {
            assert(before[i] == events[i]);
        }
        lemma_nesting_keeps_balance(before, dialect);
        let r = run(before, dialect);
        let out = r.state.output;
        let stack = open_constructs(before)->0;
        assert(keeps_balance(events[events.len() - 1], dialect));
        match event {
            DocEvent::StartTag(tag) => {
                lemma_markup_is_tight(tag, dialect);
                lemma_counts_add_up(out, open_markup(tag, dialect));
                assert(stack.push(tag).drop_last() =~= stack);
            },
            DocEvent::EndTag(tag) => {
                lemma_markup_goes_by_shape(stack.last(), tag, dialect);
                lemma_markup_is_tight(tag, dialect);
                lemma_construct_is_balanced(tag, dialect);
                lemma_trimming_keeps_brackets(out);
                lemma_counts_add_up(out, close_markup(tag, dialect));
                lemma_counts_add_up(trim_end(out), close_markup(tag, dialect));
            },
            DocEvent::Text(text) => {
                lemma_plain_text_is_neutral(text@);
                lemma_counts_add_up(out, text@);
            },
            DocEvent::InlineCode(code) => {
                lemma_inline_events(code@, dialect);
                lemma_counts_add_up(out, inline_code(code@, dialect));
            },
            DocEvent::FootnoteReference(label) => {
                lemma_inline_events(label@, dialect);
                lemma_counts_add_up(out, footnote_reference(label@, dialect));
            },
            DocEvent::SoftBreak => {
                lemma_inline_events(Seq::empty(), dialect);
                lemma_counts_add_up(out, " "@);
            },
            DocEvent::HardBreak => {
                lemma_inline_events(Seq::empty(), dialect);
                lemma_counts_add_up(out, "\n"@);
            },
            DocEvent::TaskListMarker(checked) => {
                lemma_inline_events(Seq::empty(), dialect);
                lemma_counts_add_up(out, task_marker(checked));
            },
            _ => {},
        }
    }
}

/// Bracket balance of a document: where every construct that is opened is
/// closed again, innermost first, the output closes as many tags as it
/// opens.
pub proof fn lemma_document_is_balanced(events: Seq<DocEvent>, dialect: Dialect)
    requires
        forall|i: int| 0 <= i < events.len() ==> keeps_balance(#[trigger] events[i], dialect),
        open_constructs(events) == Some(Seq::<TagKind>::empty()),
    ensures
        run(events, dialect).failure is None,
        opened(run(events, dialect).state.output) == closed(run(events, dialect).state.output),
{
    lemma_nesting_keeps_balance(events, dialect);
}

} // verus!
