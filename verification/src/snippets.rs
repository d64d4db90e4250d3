use crate::markers::{ends_open, occurrences, sound_end, triples};
use vstd::prelude::*;

verus! {

/// The snippet `\n`.
proof fn lemma_line_end_in_xenforo()
    ensures
        triples("\n"@, '*', ']') == 0,
        !ends_open("\n"@),
        sound_end("\n"@),
{
    reveal_strlit("\n");
    reveal_with_fuel(triples, 2);
    reveal_with_fuel(ends_open, 2);
}

/// The snippet `[quote]`.
proof fn lemma_quote_in_xenforo()
    ensures
        triples("[quote]"@, '*', ']') == 0,
        !ends_open("[quote]"@),
        sound_end("[quote]"@),
{
    reveal_strlit("[quote]");
    reveal_with_fuel(triples, 8);
    reveal_with_fuel(ends_open, 8);
}

/// The snippet `[code]`.
proof fn lemma_code_in_xenforo()
    ensures
        triples("[code]"@, '*', ']') == 0,
        !ends_open("[code]"@),
        sound_end("[code]"@),
{
    reveal_strlit("[code]");
    reveal_with_fuel(triples, 7);
    reveal_with_fuel(ends_open, 7);
}

/// The snippet `[list=1]`.
proof fn lemma_list_1_in_xenforo()
    ensures
        triples("[list=1]"@, '*', ']') == 0,
        !ends_open("[list=1]"@),
        sound_end("[list=1]"@),
{
    reveal_strlit("[list=1]");
    reveal_with_fuel(triples, 9);
    reveal_with_fuel(ends_open, 9);
}

/// The snippet `[list]`.
proof fn lemma_list_in_xenforo()
    ensures
        triples("[list]"@, '*', ']') == 0,
        !ends_open("[list]"@),
        sound_end("[list]"@),
{
    reveal_strlit("[list]");
    reveal_with_fuel(triples, 7);
    reveal_with_fuel(ends_open, 7);
}

/// The snippet `\n[*]`.
proof fn lemma_bullet_in_xenforo()
    ensures
        triples("\n[*]"@, '*', ']') == 1,
        !ends_open("\n[*]"@),
        sound_end("\n[*]"@),
        occurrences("\n[*]"@, "[*]"@) == 1,
{
    reveal_strlit("\n[*]");
    reveal_strlit("[*]");
    reveal_with_fuel(occurrences, 5);
    reveal_with_fuel(triples, 5);
    reveal_with_fuel(ends_open, 5);
    let s = "\n[*]"@;
    let p = "[*]"@;
    assert(s.drop_last().subrange(0, 3)[0] == '\n');
    assert(!p.is_suffix_of(s.drop_last()));
}

/// The snippet `[table]`.
proof fn lemma_table_in_xenforo()
    ensures
        triples("[table]"@, '*', ']') == 0,
        !ends_open("[table]"@),
        sound_end("[table]"@),
{
    reveal_strlit("[table]");
    reveal_with_fuel(triples, 8);
    reveal_with_fuel(ends_open, 8);
}

/// The snippet `[tr]`.
proof fn lemma_tr_in_xenforo()
    ensures
        triples("[tr]"@, '*', ']') == 0,
        !ends_open("[tr]"@),
        sound_end("[tr]"@),
{
    reveal_strlit("[tr]");
    reveal_with_fuel(triples, 5);
    reveal_with_fuel(ends_open, 5);
}

/// The snippet `[td]`.
proof fn lemma_td_in_xenforo()
    ensures
        triples("[td]"@, '*', ']') == 0,
        !ends_open("[td]"@),
        sound_end("[td]"@),
{
    reveal_strlit("[td]");
    reveal_with_fuel(triples, 5);
    reveal_with_fuel(ends_open, 5);
}

/// The snippet `[i]`.
proof fn lemma_i_in_xenforo()
    ensures
        triples("[i]"@, '*', ']') == 0,
        !ends_open("[i]"@),
        sound_end("[i]"@),
{
    reveal_strlit("[i]");
    reveal_with_fuel(triples, 4);
    reveal_with_fuel(ends_open, 4);
}

/// The snippet `[b]`.
proof fn lemma_b_in_xenforo()
    ensures
        triples("[b]"@, '*', ']') == 0,
        !ends_open("[b]"@),
        sound_end("[b]"@),
{
    reveal_strlit("[b]");
    reveal_with_fuel(triples, 4);
    reveal_with_fuel(ends_open, 4);
}

/// The snippet `[s]`.
proof fn lemma_s_in_xenforo()
    ensures
        triples("[s]"@, '*', ']') == 0,
        !ends_open("[s]"@),
        sound_end("[s]"@),
{
    reveal_strlit("[s]");
    reveal_with_fuel(triples, 4);
    reveal_with_fuel(ends_open, 4);
}

/// The snippet `[/quote]`.
proof fn lemma_quote_closing_in_xenforo()
    ensures
        triples("[/quote]"@, '*', ']') == 0,
        !ends_open("[/quote]"@),
        sound_end("[/quote]"@),
{
    reveal_strlit("[/quote]");
    reveal_with_fuel(triples, 9);
    reveal_with_fuel(ends_open, 9);
}

/// The snippet `[/code]\n`.
proof fn lemma_code_closing_in_xenforo()
    ensures
        triples("[/code]\n"@, '*', ']') == 0,
        !ends_open("[/code]\n"@),
        sound_end("[/code]\n"@),
{
    reveal_strlit("[/code]\n");
    reveal_with_fuel(triples, 9);
    reveal_with_fuel(ends_open, 9);
}

/// The snippet `\n[/list]`.
proof fn lemma_list_closing_in_xenforo()
    ensures
        triples("\n[/list]"@, '*', ']') == 0,
        !ends_open("\n[/list]"@),
        sound_end("\n[/list]"@),
{
    reveal_strlit("\n[/list]");
    reveal_with_fuel(triples, 9);
    reveal_with_fuel(ends_open, 9);
}

/// The snippet `[/table]`.
proof fn lemma_table_closing_in_xenforo()
    ensures
        triples("[/table]"@, '*', ']') == 0,
        !ends_open("[/table]"@),
        sound_end("[/table]"@),
{
    reveal_strlit("[/table]");
    reveal_with_fuel(triples, 9);
    reveal_with_fuel(ends_open, 9);
}

/// The snippet `[/tr]`.
proof fn lemma_tr_closing_in_xenforo()
    ensures
        triples("[/tr]"@, '*', ']') == 0,
        !ends_open("[/tr]"@),
        sound_end("[/tr]"@),
{
    reveal_strlit("[/tr]");
    reveal_with_fuel(triples, 6);
    reveal_with_fuel(ends_open, 6);
}

/// The snippet `[/td]`.
proof fn lemma_td_closing_in_xenforo()
    ensures
        triples("[/td]"@, '*', ']') == 0,
        !ends_open("[/td]"@),
        sound_end("[/td]"@),
{
    reveal_strlit("[/td]");
    reveal_with_fuel(triples, 6);
    reveal_with_fuel(ends_open, 6);
}

/// The snippet `[/i]`.
proof fn lemma_i_closing_in_xenforo()
    ensures
        triples("[/i]"@, '*', ']') == 0,
        !ends_open("[/i]"@),
        sound_end("[/i]"@),
{
    reveal_strlit("[/i]");
    reveal_with_fuel(triples, 5);
    reveal_with_fuel(ends_open, 5);
}

/// The snippet `[/b]`.
proof fn lemma_b_closing_in_xenforo()
    ensures
        triples("[/b]"@, '*', ']') == 0,
        !ends_open("[/b]"@),
        sound_end("[/b]"@),
{
    reveal_strlit("[/b]");
    reveal_with_fuel(triples, 5);
    reveal_with_fuel(ends_open, 5);
}

/// The snippet `[/s]`.
proof fn lemma_s_closing_in_xenforo()
    ensures
        triples("[/s]"@, '*', ']') == 0,
        !ends_open("[/s]"@),
        sound_end("[/s]"@),
{
    reveal_strlit("[/s]");
    reveal_with_fuel(triples, 5);
    reveal_with_fuel(ends_open, 5);
}

/// The snippet `[/u][/b][/size]\n`.
proof fn lemma_u_b_size_closing_in_xenforo()
    ensures
        triples("[/u][/b][/size]\n"@, '*', ']') == 0,
        !ends_open("[/u][/b][/size]\n"@),
        sound_end("[/u][/b][/size]\n"@),
{
    reveal_strlit("[/u][/b][/size]\n");
    reveal_with_fuel(triples, 17);
    reveal_with_fuel(ends_open, 17);
}

/// The snippet `[/url]`.
proof fn lemma_url_closing_in_xenforo()
    ensures
        triples("[/url]"@, '*', ']') == 0,
        !ends_open("[/url]"@),
        sound_end("[/url]"@),
{
    reveal_strlit("[/url]");
    reveal_with_fuel(triples, 7);
    reveal_with_fuel(ends_open, 7);
}

/// The snippet `\n[size="`.
proof fn lemma_size_in_xenforo()
    ensures
        triples("\n[size=\""@, '*', ']') == 0,
        ends_open("\n[size=\""@),
        sound_end("\n[size=\""@),
{
    reveal_strlit("\n[size=\"");
    reveal_with_fuel(triples, 9);
    reveal_with_fuel(ends_open, 9);
}

/// The snippet `"][b][u]`.
proof fn lemma_bold_underline_in_xenforo()
    ensures
        triples("\"][b][u]"@, '*', ']') == 0,
        !ends_open("\"][b][u]"@),
        sound_end("\"][b][u]"@),
{
    reveal_strlit("\"][b][u]");
    reveal_with_fuel(triples, 9);
    reveal_with_fuel(ends_open, 9);
}

/// The snippet `[url=`.
proof fn lemma_url_in_xenforo()
    ensures
        triples("[url="@, '*', ']') == 0,
        ends_open("[url="@),
        sound_end("[url="@),
{
    reveal_strlit("[url=");
    reveal_with_fuel(triples, 6);
    reveal_with_fuel(ends_open, 6);
}

/// The snippet `]`.
proof fn lemma_bracket_in_xenforo()
    ensures
        triples("]"@, '*', ']') == 0,
        !ends_open("]"@),
        sound_end("]"@),
{
    reveal_strlit("]");
    reveal_with_fuel(triples, 2);
    reveal_with_fuel(ends_open, 2);
}

/// The snippet `[img]`.
proof fn lemma_img_in_xenforo()
    ensures
        triples("[img]"@, '*', ']') == 0,
        !ends_open("[img]"@),
        sound_end("[img]"@),
{
    reveal_strlit("[img]");
    reveal_with_fuel(triples, 6);
    reveal_with_fuel(ends_open, 6);
}

/// The snippet `[/img]`.
proof fn lemma_img_closing_in_xenforo()
    ensures
        triples("[/img]"@, '*', ']') == 0,
        !ends_open("[/img]"@),
        sound_end("[/img]"@),
{
    reveal_strlit("[/img]");
    reveal_with_fuel(triples, 7);
    reveal_with_fuel(ends_open, 7);
}

/// The snippet `[font=Courier New]`.
proof fn lemma_font_courier_new_in_xenforo()
    ensures
        triples("[font=Courier New]"@, '*', ']') == 0,
        !ends_open("[font=Courier New]"@),
        sound_end("[font=Courier New]"@),
{
    reveal_strlit("[font=Courier New]");
    reveal_with_fuel(triples, 19);
    reveal_with_fuel(ends_open, 19);
}

/// The snippet `[/font]`.
proof fn lemma_font_closing_in_xenforo()
    ensures
        triples("[/font]"@, '*', ']') == 0,
        !ends_open("[/font]"@),
        sound_end("[/font]"@),
{
    reveal_strlit("[/font]");
    reveal_with_fuel(triples, 8);
    reveal_with_fuel(ends_open, 8);
}

/// The snippet ` `.
proof fn lemma_space_in_xenforo()
    ensures
        triples(" "@, '*', ']') == 0,
        !ends_open(" "@),
        sound_end(" "@),
{
    reveal_strlit(" ");
    reveal_with_fuel(triples, 2);
    reveal_with_fuel(ends_open, 2);
}

/// The snippet of the rule.
proof fn lemma_rule_in_xenforo()
    ensures
        triples("\n\u{2501}\u{2501}\u{2501}\u{2501}\u{2501}\u{2501}\u{2501}\u{2501}\u{2501}\u{2501}\u{2501}\u{2501}\u{2501}\u{2501}\u{2501}\u{2501}\u{2501}\u{2501}\u{2501}\u{2501}\u{2501}\u{2501}\u{2501}\u{2501}\u{2501}\u{2501}\u{2501}\u{2501}\u{2501}\u{2501}\u{2501}\u{2501}\n"@, '*', ']') == 0,
        !ends_open("\n\u{2501}\u{2501}\u{2501}\u{2501}\u{2501}\u{2501}\u{2501}\u{2501}\u{2501}\u{2501}\u{2501}\u{2501}\u{2501}\u{2501}\u{2501}\u{2501}\u{2501}\u{2501}\u{2501}\u{2501}\u{2501}\u{2501}\u{2501}\u{2501}\u{2501}\u{2501}\u{2501}\u{2501}\u{2501}\u{2501}\u{2501}\u{2501}\n"@),
        sound_end("\n\u{2501}\u{2501}\u{2501}\u{2501}\u{2501}\u{2501}\u{2501}\u{2501}\u{2501}\u{2501}\u{2501}\u{2501}\u{2501}\u{2501}\u{2501}\u{2501}\u{2501}\u{2501}\u{2501}\u{2501}\u{2501}\u{2501}\u{2501}\u{2501}\u{2501}\u{2501}\u{2501}\u{2501}\u{2501}\u{2501}\u{2501}\u{2501}\n"@),
{
    reveal_strlit("\n\u{2501}\u{2501}\u{2501}\u{2501}\u{2501}\u{2501}\u{2501}\u{2501}\u{2501}\u{2501}\u{2501}\u{2501}\u{2501}\u{2501}\u{2501}\u{2501}\u{2501}\u{2501}\u{2501}\u{2501}\u{2501}\u{2501}\u{2501}\u{2501}\u{2501}\u{2501}\u{2501}\u{2501}\u{2501}\u{2501}\u{2501}\u{2501}\n");
    reveal_with_fuel(triples, 35);
    reveal_with_fuel(ends_open, 35);
}

/// The snippets of XenForo: how often each holds what looks like the bullet
/// of a list item, and how each ends.
pub(crate) proof fn lemma_xenforo_snippets()
    ensures
        triples("\n"@, '*', ']') == 0,
        !ends_open("\n"@),
        sound_end("\n"@),
        triples("[quote]"@, '*', ']') == 0,
        !ends_open("[quote]"@),
        sound_end("[quote]"@),
        triples("[code]"@, '*', ']') == 0,
        !ends_open("[code]"@),
        sound_end("[code]"@),
        triples("[list=1]"@, '*', ']') == 0,
        !ends_open("[list=1]"@),
        sound_end("[list=1]"@),
        triples("[list]"@, '*', ']') == 0,
        !ends_open("[list]"@),
        sound_end("[list]"@),
        triples("\n[*]"@, '*', ']') == 1,
        !ends_open("\n[*]"@),
        sound_end("\n[*]"@),
        occurrences("\n[*]"@, "[*]"@) == 1,
        triples("[table]"@, '*', ']') == 0,
        !ends_open("[table]"@),
        sound_end("[table]"@),
        triples("[tr]"@, '*', ']') == 0,
        !ends_open("[tr]"@),
        sound_end("[tr]"@),
        triples("[td]"@, '*', ']') == 0,
        !ends_open("[td]"@),
        sound_end("[td]"@),
        triples("[i]"@, '*', ']') == 0,
        !ends_open("[i]"@),
        sound_end("[i]"@),
        triples("[b]"@, '*', ']') == 0,
        !ends_open("[b]"@),
        sound_end("[b]"@),
        triples("[s]"@, '*', ']') == 0,
        !ends_open("[s]"@),
        sound_end("[s]"@),
        triples("[/quote]"@, '*', ']') == 0,
        !ends_open("[/quote]"@),
        sound_end("[/quote]"@),
        triples("[/code]\n"@, '*', ']') == 0,
        !ends_open("[/code]\n"@),
        sound_end("[/code]\n"@),
        triples("\n[/list]"@, '*', ']') == 0,
        !ends_open("\n[/list]"@),
        sound_end("\n[/list]"@),
        triples("[/table]"@, '*', ']') == 0,
        !ends_open("[/table]"@),
        sound_end("[/table]"@),
        triples("[/tr]"@, '*', ']') == 0,
        !ends_open("[/tr]"@),
        sound_end("[/tr]"@),
        triples("[/td]"@, '*', ']') == 0,
        !ends_open("[/td]"@),
        sound_end("[/td]"@),
        triples("[/i]"@, '*', ']') == 0,
        !ends_open("[/i]"@),
        sound_end("[/i]"@),
        triples("[/b]"@, '*', ']') == 0,
        !ends_open("[/b]"@),
        sound_end("[/b]"@),
        triples("[/s]"@, '*', ']') == 0,
        !ends_open("[/s]"@),
        sound_end("[/s]"@),
        triples("[/u][/b][/size]\n"@, '*', ']') == 0,
        !ends_open("[/u][/b][/size]\n"@),
        sound_end("[/u][/b][/size]\n"@),
        triples("[/url]"@, '*', ']') == 0,
        !ends_open("[/url]"@),
        sound_end("[/url]"@),
        triples("\n[size=\""@, '*', ']') == 0,
        ends_open("\n[size=\""@),
        sound_end("\n[size=\""@),
        triples("\"][b][u]"@, '*', ']') == 0,
        !ends_open("\"][b][u]"@),
        sound_end("\"][b][u]"@),
        triples("[url="@, '*', ']') == 0,
        ends_open("[url="@),
        sound_end("[url="@),
        triples("]"@, '*', ']') == 0,
        !ends_open("]"@),
        sound_end("]"@),
        triples("[img]"@, '*', ']') == 0,
        !ends_open("[img]"@),
        sound_end("[img]"@),
        triples("[/img]"@, '*', ']') == 0,
        !ends_open("[/img]"@),
        sound_end("[/img]"@),
        triples("[font=Courier New]"@, '*', ']') == 0,
        !ends_open("[font=Courier New]"@),
        sound_end("[font=Courier New]"@),
        triples("[/font]"@, '*', ']') == 0,
        !ends_open("[/font]"@),
        sound_end("[/font]"@),
        triples(" "@, '*', ']') == 0,
        !ends_open(" "@),
        sound_end(" "@),
        triples("\n\u{2501}\u{2501}\u{2501}\u{2501}\u{2501}\u{2501}\u{2501}\u{2501}\u{2501}\u{2501}\u{2501}\u{2501}\u{2501}\u{2501}\u{2501}\u{2501}\u{2501}\u{2501}\u{2501}\u{2501}\u{2501}\u{2501}\u{2501}\u{2501}\u{2501}\u{2501}\u{2501}\u{2501}\u{2501}\u{2501}\u{2501}\u{2501}\n"@, '*', ']') == 0,
        !ends_open("\n\u{2501}\u{2501}\u{2501}\u{2501}\u{2501}\u{2501}\u{2501}\u{2501}\u{2501}\u{2501}\u{2501}\u{2501}\u{2501}\u{2501}\u{2501}\u{2501}\u{2501}\u{2501}\u{2501}\u{2501}\u{2501}\u{2501}\u{2501}\u{2501}\u{2501}\u{2501}\u{2501}\u{2501}\u{2501}\u{2501}\u{2501}\u{2501}\n"@),
        sound_end("\n\u{2501}\u{2501}\u{2501}\u{2501}\u{2501}\u{2501}\u{2501}\u{2501}\u{2501}\u{2501}\u{2501}\u{2501}\u{2501}\u{2501}\u{2501}\u{2501}\u{2501}\u{2501}\u{2501}\u{2501}\u{2501}\u{2501}\u{2501}\u{2501}\u{2501}\u{2501}\u{2501}\u{2501}\u{2501}\u{2501}\u{2501}\u{2501}\n"@),
{
    lemma_line_end_in_xenforo();
    lemma_quote_in_xenforo();
    lemma_code_in_xenforo();
    lemma_list_1_in_xenforo();
    lemma_list_in_xenforo();
    lemma_bullet_in_xenforo();
    lemma_table_in_xenforo();
    lemma_tr_in_xenforo();
    lemma_td_in_xenforo();
    lemma_i_in_xenforo();
    lemma_b_in_xenforo();
    lemma_s_in_xenforo();
    lemma_quote_closing_in_xenforo();
    lemma_code_closing_in_xenforo();
    lemma_list_closing_in_xenforo();
    lemma_table_closing_in_xenforo();
    lemma_tr_closing_in_xenforo();
    lemma_td_closing_in_xenforo();
    lemma_i_closing_in_xenforo();
    lemma_b_closing_in_xenforo();
    lemma_s_closing_in_xenforo();
    lemma_u_b_size_closing_in_xenforo();
    lemma_url_closing_in_xenforo();
    lemma_size_in_xenforo();
    lemma_bold_underline_in_xenforo();
    lemma_url_in_xenforo();
    lemma_bracket_in_xenforo();
    lemma_img_in_xenforo();
    lemma_img_closing_in_xenforo();
    lemma_font_courier_new_in_xenforo();
    lemma_font_closing_in_xenforo();
    lemma_space_in_xenforo();
    lemma_rule_in_xenforo();
}

/// The snippet `\n`.
proof fn lemma_line_end_in_proboards()
    ensures
        triples("\n"@, 'l', 'i') == 0,
        triples("\n"@, '/', 'l') == 0,
        !ends_open("\n"@),
        sound_end("\n"@),
{
    reveal_strlit("\n");
    reveal_with_fuel(triples, 2);
    reveal_with_fuel(ends_open, 2);
}

/// The snippet `[blockquote]`.
proof fn lemma_blockquote_in_proboards()
    ensures
        triples("[blockquote]"@, 'l', 'i') == 0,
        triples("[blockquote]"@, '/', 'l') == 0,
        !ends_open("[blockquote]"@),
        sound_end("[blockquote]"@),
{
    reveal_strlit("[blockquote]");
    reveal_with_fuel(triples, 13);
    reveal_with_fuel(ends_open, 13);
}

/// The snippet `\n[pre]`.
proof fn lemma_pre_in_proboards()
    ensures
        triples("\n[pre]"@, 'l', 'i') == 0,
        triples("\n[pre]"@, '/', 'l') == 0,
        !ends_open("\n[pre]"@),
        sound_end("\n[pre]"@),
{
    reveal_strlit("\n[pre]");
    reveal_with_fuel(triples, 7);
    reveal_with_fuel(ends_open, 7);
}

/// The snippet `\n[ol]`.
proof fn lemma_ol_in_proboards()
    ensures
        triples("\n[ol]"@, 'l', 'i') == 0,
        triples("\n[ol]"@, '/', 'l') == 0,
        !ends_open("\n[ol]"@),
        sound_end("\n[ol]"@),
{
    reveal_strlit("\n[ol]");
    reveal_with_fuel(triples, 6);
    reveal_with_fuel(ends_open, 6);
}

/// The snippet `\n[ul]`.
proof fn lemma_ul_in_proboards()
    ensures
        triples("\n[ul]"@, 'l', 'i') == 0,
        triples("\n[ul]"@, '/', 'l') == 0,
        !ends_open("\n[ul]"@),
        sound_end("\n[ul]"@),
{
    reveal_strlit("\n[ul]");
    reveal_with_fuel(triples, 6);
    reveal_with_fuel(ends_open, 6);
}

/// The snippet `\n[li]`.
proof fn lemma_li_in_proboards()
    ensures
        triples("\n[li]"@, 'l', 'i') == 1,
        triples("\n[li]"@, '/', 'l') == 0,
        !ends_open("\n[li]"@),
        sound_end("\n[li]"@),
        occurrences("\n[li]"@, "[li]"@) == 1,
{
    reveal_strlit("\n[li]");
    reveal_strlit("[li]");
    reveal_with_fuel(occurrences, 6);
    reveal_with_fuel(triples, 6);
    reveal_with_fuel(ends_open, 6);
}

/// The snippet `[table]`.
proof fn lemma_table_in_proboards()
    ensures
        triples("[table]"@, 'l', 'i') == 0,
        triples("[table]"@, '/', 'l') == 0,
        !ends_open("[table]"@),
        sound_end("[table]"@),
{
    reveal_strlit("[table]");
    reveal_with_fuel(triples, 8);
    reveal_with_fuel(ends_open, 8);
}

/// The snippet `\n  [thead][tr]`.
proof fn lemma_thead_tr_in_proboards()
    ensures
        triples("\n  [thead][tr]"@, 'l', 'i') == 0,
        triples("\n  [thead][tr]"@, '/', 'l') == 0,
        !ends_open("\n  [thead][tr]"@),
        sound_end("\n  [thead][tr]"@),
{
    reveal_strlit("\n  [thead][tr]");
    reveal_with_fuel(triples, 15);
    reveal_with_fuel(ends_open, 15);
}

/// The snippet `[tr]`.
proof fn lemma_tr_in_proboards()
    ensures
        triples("[tr]"@, 'l', 'i') == 0,
        triples("[tr]"@, '/', 'l') == 0,
        !ends_open("[tr]"@),
        sound_end("[tr]"@),
{
    reveal_strlit("[tr]");
    reveal_with_fuel(triples, 5);
    reveal_with_fuel(ends_open, 5);
}

/// The snippet `[td]`.
proof fn lemma_td_in_proboards()
    ensures
        triples("[td]"@, 'l', 'i') == 0,
        triples("[td]"@, '/', 'l') == 0,
        !ends_open("[td]"@),
        sound_end("[td]"@),
{
    reveal_strlit("[td]");
    reveal_with_fuel(triples, 5);
    reveal_with_fuel(ends_open, 5);
}

/// The snippet `[i]`.
proof fn lemma_i_in_proboards()
    ensures
        triples("[i]"@, 'l', 'i') == 0,
        triples("[i]"@, '/', 'l') == 0,
        !ends_open("[i]"@),
        sound_end("[i]"@),
{
    reveal_strlit("[i]");
    reveal_with_fuel(triples, 4);
    reveal_with_fuel(ends_open, 4);
}

/// The snippet `[b]`.
proof fn lemma_b_in_proboards()
    ensures
        triples("[b]"@, 'l', 'i') == 0,
        triples("[b]"@, '/', 'l') == 0,
        !ends_open("[b]"@),
        sound_end("[b]"@),
{
    reveal_strlit("[b]");
    reveal_with_fuel(triples, 4);
    reveal_with_fuel(ends_open, 4);
}

/// The snippet `[s]`.
proof fn lemma_s_in_proboards()
    ensures
        triples("[s]"@, 'l', 'i') == 0,
        triples("[s]"@, '/', 'l') == 0,
        !ends_open("[s]"@),
        sound_end("[s]"@),
{
    reveal_strlit("[s]");
    reveal_with_fuel(triples, 4);
    reveal_with_fuel(ends_open, 4);
}

/// The snippet `[/u][/b][/font]\n\n`.
proof fn lemma_u_b_font_closing_in_proboards()
    ensures
        triples("[/u][/b][/font]\n\n"@, 'l', 'i') == 0,
        triples("[/u][/b][/font]\n\n"@, '/', 'l') == 0,
        !ends_open("[/u][/b][/font]\n\n"@),
        sound_end("[/u][/b][/font]\n\n"@),
{
    reveal_strlit("[/u][/b][/font]\n\n");
    reveal_with_fuel(triples, 18);
    reveal_with_fuel(ends_open, 18);
}

/// The snippet `[/blockquote]`.
proof fn lemma_blockquote_closing_in_proboards()
    ensures
        triples("[/blockquote]"@, 'l', 'i') == 0,
        triples("[/blockquote]"@, '/', 'l') == 0,
        !ends_open("[/blockquote]"@),
        sound_end("[/blockquote]"@),
{
    reveal_strlit("[/blockquote]");
    reveal_with_fuel(triples, 14);
    reveal_with_fuel(ends_open, 14);
}

/// The snippet `[/pre]\n`.
proof fn lemma_pre_closing_in_proboards()
    ensures
        triples("[/pre]\n"@, 'l', 'i') == 0,
        triples("[/pre]\n"@, '/', 'l') == 0,
        !ends_open("[/pre]\n"@),
        sound_end("[/pre]\n"@),
{
    reveal_strlit("[/pre]\n");
    reveal_with_fuel(triples, 8);
    reveal_with_fuel(ends_open, 8);
}

/// The snippet `\n[/ol]`.
proof fn lemma_ol_closing_in_proboards()
    ensures
        triples("\n[/ol]"@, 'l', 'i') == 0,
        triples("\n[/ol]"@, '/', 'l') == 0,
        !ends_open("\n[/ol]"@),
        sound_end("\n[/ol]"@),
{
    reveal_strlit("\n[/ol]");
    reveal_with_fuel(triples, 7);
    reveal_with_fuel(ends_open, 7);
}

/// The snippet `\n[/ul]`.
proof fn lemma_ul_closing_in_proboards()
    ensures
        triples("\n[/ul]"@, 'l', 'i') == 0,
        triples("\n[/ul]"@, '/', 'l') == 0,
        !ends_open("\n[/ul]"@),
        sound_end("\n[/ul]"@),
{
    reveal_strlit("\n[/ul]");
    reveal_with_fuel(triples, 7);
    reveal_with_fuel(ends_open, 7);
}

/// The snippet `[/li]`.
proof fn lemma_li_closing_in_proboards()
    ensures
        triples("[/li]"@, 'l', 'i') == 0,
        triples("[/li]"@, '/', 'l') == 1,
        !ends_open("[/li]"@),
        sound_end("[/li]"@),
        occurrences("[/li]"@, "[/li]"@) == 1,
{
    reveal_strlit("[/li]");
    reveal_with_fuel(occurrences, 6);
    reveal_with_fuel(triples, 6);
    reveal_with_fuel(ends_open, 6);
}

/// The snippet `\n  [/tbody]\n[/table]`.
proof fn lemma_tbody_table_closing_in_proboards()
    ensures
        triples("\n  [/tbody]\n[/table]"@, 'l', 'i') == 0,
        triples("\n  [/tbody]\n[/table]"@, '/', 'l') == 0,
        !ends_open("\n  [/tbody]\n[/table]"@),
        sound_end("\n  [/tbody]\n[/table]"@),
{
    reveal_strlit("\n  [/tbody]\n[/table]");
    reveal_with_fuel(triples, 21);
    reveal_with_fuel(ends_open, 21);
}

/// The snippet `[/tr][/thead]\n  [tbody]`.
proof fn lemma_tr_thead_tbody_closing_in_proboards()
    ensures
        triples("[/tr][/thead]\n  [tbody]"@, 'l', 'i') == 0,
        triples("[/tr][/thead]\n  [tbody]"@, '/', 'l') == 0,
        !ends_open("[/tr][/thead]\n  [tbody]"@),
        sound_end("[/tr][/thead]\n  [tbody]"@),
{
    reveal_strlit("[/tr][/thead]\n  [tbody]");
    reveal_with_fuel(triples, 24);
    reveal_with_fuel(ends_open, 24);
}

/// The snippet `[/tr]`.
proof fn lemma_tr_closing_in_proboards()
    ensures
        triples("[/tr]"@, 'l', 'i') == 0,
        triples("[/tr]"@, '/', 'l') == 0,
        !ends_open("[/tr]"@),
        sound_end("[/tr]"@),
{
    reveal_strlit("[/tr]");
    reveal_with_fuel(triples, 6);
    reveal_with_fuel(ends_open, 6);
}

/// The snippet `[/td]`.
proof fn lemma_td_closing_in_proboards()
    ensures
        triples("[/td]"@, 'l', 'i') == 0,
        triples("[/td]"@, '/', 'l') == 0,
        !ends_open("[/td]"@),
        sound_end("[/td]"@),
{
    reveal_strlit("[/td]");
    reveal_with_fuel(triples, 6);
    reveal_with_fuel(ends_open, 6);
}

/// The snippet `[/i]`.
proof fn lemma_i_closing_in_proboards()
    ensures
        triples("[/i]"@, 'l', 'i') == 0,
        triples("[/i]"@, '/', 'l') == 0,
        !ends_open("[/i]"@),
        sound_end("[/i]"@),
{
    reveal_strlit("[/i]");
    reveal_with_fuel(triples, 5);
    reveal_with_fuel(ends_open, 5);
}

/// The snippet `[/b]`.
proof fn lemma_b_closing_in_proboards()
    ensures
        triples("[/b]"@, 'l', 'i') == 0,
        triples("[/b]"@, '/', 'l') == 0,
        !ends_open("[/b]"@),
        sound_end("[/b]"@),
{
    reveal_strlit("[/b]");
    reveal_with_fuel(triples, 5);
    reveal_with_fuel(ends_open, 5);
}

/// The snippet `[/s]`.
proof fn lemma_s_closing_in_proboards()
    ensures
        triples("[/s]"@, 'l', 'i') == 0,
        triples("[/s]"@, '/', 'l') == 0,
        !ends_open("[/s]"@),
        sound_end("[/s]"@),
{
    reveal_strlit("[/s]");
    reveal_with_fuel(triples, 5);
    reveal_with_fuel(ends_open, 5);
}

/// The snippet `[/a]`.
proof fn lemma_a_closing_in_proboards()
    ensures
        triples("[/a]"@, 'l', 'i') == 0,
        triples("[/a]"@, '/', 'l') == 0,
        !ends_open("[/a]"@),
        sound_end("[/a]"@),
{
    reveal_strlit("[/a]");
    reveal_with_fuel(triples, 5);
    reveal_with_fuel(ends_open, 5);
}

/// The snippet `\n[hr]\n`.
proof fn lemma_hr_in_proboards()
    ensures
        triples("\n[hr]\n"@, 'l', 'i') == 0,
        triples("\n[hr]\n"@, '/', 'l') == 0,
        !ends_open("\n[hr]\n"@),
        sound_end("\n[hr]\n"@),
{
    reveal_strlit("\n[hr]\n");
    reveal_with_fuel(triples, 7);
    reveal_with_fuel(ends_open, 7);
}

/// The snippet ` `.
proof fn lemma_space_in_proboards()
    ensures
        triples(" "@, 'l', 'i') == 0,
        triples(" "@, '/', 'l') == 0,
        !ends_open(" "@),
        sound_end(" "@),
{
    reveal_strlit(" ");
    reveal_with_fuel(triples, 2);
    reveal_with_fuel(ends_open, 2);
}

/// The snippet `\n\n[font size="`.
proof fn lemma_font_size_in_proboards()
    ensures
        triples("\n\n[font size=\""@, 'l', 'i') == 0,
        triples("\n\n[font size=\""@, '/', 'l') == 0,
        ends_open("\n\n[font size=\""@),
        sound_end("\n\n[font size=\""@),
{
    reveal_strlit("\n\n[font size=\"");
    reveal_with_fuel(triples, 15);
    reveal_with_fuel(ends_open, 15);
}

/// The snippet `"][b][u]`.
proof fn lemma_bold_underline_in_proboards()
    ensures
        triples("\"][b][u]"@, 'l', 'i') == 0,
        triples("\"][b][u]"@, '/', 'l') == 0,
        !ends_open("\"][b][u]"@),
        sound_end("\"][b][u]"@),
{
    reveal_strlit("\"][b][u]");
    reveal_with_fuel(triples, 9);
    reveal_with_fuel(ends_open, 9);
}

/// The snippet `[a href="`.
proof fn lemma_a_href_in_proboards()
    ensures
        triples("[a href=\""@, 'l', 'i') == 0,
        triples("[a href=\""@, '/', 'l') == 0,
        ends_open("[a href=\""@),
        sound_end("[a href=\""@),
{
    reveal_strlit("[a href=\"");
    reveal_with_fuel(triples, 10);
    reveal_with_fuel(ends_open, 10);
}

/// The snippet `"]`.
proof fn lemma_quote_bracket_in_proboards()
    ensures
        triples("\"]"@, 'l', 'i') == 0,
        triples("\"]"@, '/', 'l') == 0,
        !ends_open("\"]"@),
        sound_end("\"]"@),
{
    reveal_strlit("\"]");
    reveal_with_fuel(triples, 3);
    reveal_with_fuel(ends_open, 3);
}

/// The snippet `[img src="`.
proof fn lemma_img_src_in_proboards()
    ensures
        triples("[img src=\""@, 'l', 'i') == 0,
        triples("[img src=\""@, '/', 'l') == 0,
        ends_open("[img src=\""@),
        sound_end("[img src=\""@),
{
    reveal_strlit("[img src=\"");
    reveal_with_fuel(triples, 11);
    reveal_with_fuel(ends_open, 11);
}

/// The snippet `" alt="`.
proof fn lemma_alt_in_proboards()
    ensures
        triples("\" alt=\""@, 'l', 'i') == 0,
        triples("\" alt=\""@, '/', 'l') == 0,
        !ends_open("\" alt=\""@),
        sound_end("\" alt=\""@),
{
    reveal_strlit("\" alt=\"");
    reveal_with_fuel(triples, 8);
    reveal_with_fuel(ends_open, 8);
}

/// The snippet `[tt]`.
proof fn lemma_tt_in_proboards()
    ensures
        triples("[tt]"@, 'l', 'i') == 0,
        triples("[tt]"@, '/', 'l') == 0,
        !ends_open("[tt]"@),
        sound_end("[tt]"@),
{
    reveal_strlit("[tt]");
    reveal_with_fuel(triples, 5);
    reveal_with_fuel(ends_open, 5);
}

/// The snippet `[/tt]`.
proof fn lemma_tt_closing_in_proboards()
    ensures
        triples("[/tt]"@, 'l', 'i') == 0,
        triples("[/tt]"@, '/', 'l') == 0,
        !ends_open("[/tt]"@),
        sound_end("[/tt]"@),
{
    reveal_strlit("[/tt]");
    reveal_with_fuel(triples, 6);
    reveal_with_fuel(ends_open, 6);
}

/// The snippet `[sup]`.
proof fn lemma_sup_in_proboards()
    ensures
        triples("[sup]"@, 'l', 'i') == 0,
        triples("[sup]"@, '/', 'l') == 0,
        !ends_open("[sup]"@),
        sound_end("[sup]"@),
{
    reveal_strlit("[sup]");
    reveal_with_fuel(triples, 6);
    reveal_with_fuel(ends_open, 6);
}

/// The snippet `[/sup]`.
proof fn lemma_sup_closing_in_proboards()
    ensures
        triples("[/sup]"@, 'l', 'i') == 0,
        triples("[/sup]"@, '/', 'l') == 0,
        !ends_open("[/sup]"@),
        sound_end("[/sup]"@),
{
    reveal_strlit("[/sup]");
    reveal_with_fuel(triples, 7);
    reveal_with_fuel(ends_open, 7);
}

/// The snippets of ProBoards: how often each holds what looks like the start
/// or the end of a list item, and how each ends.
pub(crate) proof fn lemma_proboards_snippets()
    ensures
        triples("\n"@, 'l', 'i') == 0,
        triples("\n"@, '/', 'l') == 0,
        !ends_open("\n"@),
        sound_end("\n"@),
        triples("[blockquote]"@, 'l', 'i') == 0,
        triples("[blockquote]"@, '/', 'l') == 0,
        !ends_open("[blockquote]"@),
        sound_end("[blockquote]"@),
        triples("\n[pre]"@, 'l', 'i') == 0,
        triples("\n[pre]"@, '/', 'l') == 0,
        !ends_open("\n[pre]"@),
        sound_end("\n[pre]"@),
        triples("\n[ol]"@, 'l', 'i') == 0,
        triples("\n[ol]"@, '/', 'l') == 0,
        !ends_open("\n[ol]"@),
        sound_end("\n[ol]"@),
        triples("\n[ul]"@, 'l', 'i') == 0,
        triples("\n[ul]"@, '/', 'l') == 0,
        !ends_open("\n[ul]"@),
        sound_end("\n[ul]"@),
        triples("\n[li]"@, 'l', 'i') == 1,
        triples("\n[li]"@, '/', 'l') == 0,
        !ends_open("\n[li]"@),
        sound_end("\n[li]"@),
        occurrences("\n[li]"@, "[li]"@) == 1,
        triples("[table]"@, 'l', 'i') == 0,
        triples("[table]"@, '/', 'l') == 0,
        !ends_open("[table]"@),
        sound_end("[table]"@),
        triples("\n  [thead][tr]"@, 'l', 'i') == 0,
        triples("\n  [thead][tr]"@, '/', 'l') == 0,
        !ends_open("\n  [thead][tr]"@),
        sound_end("\n  [thead][tr]"@),
        triples("[tr]"@, 'l', 'i') == 0,
        triples("[tr]"@, '/', 'l') == 0,
        !ends_open("[tr]"@),
        sound_end("[tr]"@),
        triples("[td]"@, 'l', 'i') == 0,
        triples("[td]"@, '/', 'l') == 0,
        !ends_open("[td]"@),
        sound_end("[td]"@),
        triples("[i]"@, 'l', 'i') == 0,
        triples("[i]"@, '/', 'l') == 0,
        !ends_open("[i]"@),
        sound_end("[i]"@),
        triples("[b]"@, 'l', 'i') == 0,
        triples("[b]"@, '/', 'l') == 0,
        !ends_open("[b]"@),
        sound_end("[b]"@),
        triples("[s]"@, 'l', 'i') == 0,
        triples("[s]"@, '/', 'l') == 0,
        !ends_open("[s]"@),
        sound_end("[s]"@),
        triples("[/u][/b][/font]\n\n"@, 'l', 'i') == 0,
        triples("[/u][/b][/font]\n\n"@, '/', 'l') == 0,
        !ends_open("[/u][/b][/font]\n\n"@),
        sound_end("[/u][/b][/font]\n\n"@),
        triples("[/blockquote]"@, 'l', 'i') == 0,
        triples("[/blockquote]"@, '/', 'l') == 0,
        !ends_open("[/blockquote]"@),
        sound_end("[/blockquote]"@),
        triples("[/pre]\n"@, 'l', 'i') == 0,
        triples("[/pre]\n"@, '/', 'l') == 0,
        !ends_open("[/pre]\n"@),
        sound_end("[/pre]\n"@),
        triples("\n[/ol]"@, 'l', 'i') == 0,
        triples("\n[/ol]"@, '/', 'l') == 0,
        !ends_open("\n[/ol]"@),
        sound_end("\n[/ol]"@),
        triples("\n[/ul]"@, 'l', 'i') == 0,
        triples("\n[/ul]"@, '/', 'l') == 0,
        !ends_open("\n[/ul]"@),
        sound_end("\n[/ul]"@),
        triples("[/li]"@, 'l', 'i') == 0,
        triples("[/li]"@, '/', 'l') == 1,
        !ends_open("[/li]"@),
        sound_end("[/li]"@),
        occurrences("[/li]"@, "[/li]"@) == 1,
        triples("\n  [/tbody]\n[/table]"@, 'l', 'i') == 0,
        triples("\n  [/tbody]\n[/table]"@, '/', 'l') == 0,
        !ends_open("\n  [/tbody]\n[/table]"@),
        sound_end("\n  [/tbody]\n[/table]"@),
        triples("[/tr][/thead]\n  [tbody]"@, 'l', 'i') == 0,
        triples("[/tr][/thead]\n  [tbody]"@, '/', 'l') == 0,
        !ends_open("[/tr][/thead]\n  [tbody]"@),
        sound_end("[/tr][/thead]\n  [tbody]"@),
        triples("[/tr]"@, 'l', 'i') == 0,
        triples("[/tr]"@, '/', 'l') == 0,
        !ends_open("[/tr]"@),
        sound_end("[/tr]"@),
        triples("[/td]"@, 'l', 'i') == 0,
        triples("[/td]"@, '/', 'l') == 0,
        !ends_open("[/td]"@),
        sound_end("[/td]"@),
        triples("[/i]"@, 'l', 'i') == 0,
        triples("[/i]"@, '/', 'l') == 0,
        !ends_open("[/i]"@),
        sound_end("[/i]"@),
        triples("[/b]"@, 'l', 'i') == 0,
        triples("[/b]"@, '/', 'l') == 0,
        !ends_open("[/b]"@),
        sound_end("[/b]"@),
        triples("[/s]"@, 'l', 'i') == 0,
        triples("[/s]"@, '/', 'l') == 0,
        !ends_open("[/s]"@),
        sound_end("[/s]"@),
        triples("[/a]"@, 'l', 'i') == 0,
        triples("[/a]"@, '/', 'l') == 0,
        !ends_open("[/a]"@),
        sound_end("[/a]"@),
        triples("\n[hr]\n"@, 'l', 'i') == 0,
        triples("\n[hr]\n"@, '/', 'l') == 0,
        !ends_open("\n[hr]\n"@),
        sound_end("\n[hr]\n"@),
        triples(" "@, 'l', 'i') == 0,
        triples(" "@, '/', 'l') == 0,
        !ends_open(" "@),
        sound_end(" "@),
        triples("\n\n[font size=\""@, 'l', 'i') == 0,
        triples("\n\n[font size=\""@, '/', 'l') == 0,
        ends_open("\n\n[font size=\""@),
        sound_end("\n\n[font size=\""@),
        triples("\"][b][u]"@, 'l', 'i') == 0,
        triples("\"][b][u]"@, '/', 'l') == 0,
        !ends_open("\"][b][u]"@),
        sound_end("\"][b][u]"@),
        triples("[a href=\""@, 'l', 'i') == 0,
        triples("[a href=\""@, '/', 'l') == 0,
        ends_open("[a href=\""@),
        sound_end("[a href=\""@),
        triples("\"]"@, 'l', 'i') == 0,
        triples("\"]"@, '/', 'l') == 0,
        !ends_open("\"]"@),
        sound_end("\"]"@),
        triples("[img src=\""@, 'l', 'i') == 0,
        triples("[img src=\""@, '/', 'l') == 0,
        ends_open("[img src=\""@),
        sound_end("[img src=\""@),
        triples("\" alt=\""@, 'l', 'i') == 0,
        triples("\" alt=\""@, '/', 'l') == 0,
        !ends_open("\" alt=\""@),
        sound_end("\" alt=\""@),
        triples("[tt]"@, 'l', 'i') == 0,
        triples("[tt]"@, '/', 'l') == 0,
        !ends_open("[tt]"@),
        sound_end("[tt]"@),
        triples("[/tt]"@, 'l', 'i') == 0,
        triples("[/tt]"@, '/', 'l') == 0,
        !ends_open("[/tt]"@),
        sound_end("[/tt]"@),
        triples("[sup]"@, 'l', 'i') == 0,
        triples("[sup]"@, '/', 'l') == 0,
        !ends_open("[sup]"@),
        sound_end("[sup]"@),
        triples("[/sup]"@, 'l', 'i') == 0,
        triples("[/sup]"@, '/', 'l') == 0,
        !ends_open("[/sup]"@),
        sound_end("[/sup]"@),
{
    lemma_line_end_in_proboards();
    lemma_blockquote_in_proboards();
    lemma_pre_in_proboards();
    lemma_ol_in_proboards();
    lemma_ul_in_proboards();
    lemma_li_in_proboards();
    lemma_table_in_proboards();
    lemma_thead_tr_in_proboards();
    lemma_tr_in_proboards();
    lemma_td_in_proboards();
    lemma_i_in_proboards();
    lemma_b_in_proboards();
    lemma_s_in_proboards();
    lemma_u_b_font_closing_in_proboards();
    lemma_blockquote_closing_in_proboards();
    lemma_pre_closing_in_proboards();
    lemma_ol_closing_in_proboards();
    lemma_ul_closing_in_proboards();
    lemma_li_closing_in_proboards();
    lemma_tbody_table_closing_in_proboards();
    lemma_tr_thead_tbody_closing_in_proboards();
    lemma_tr_closing_in_proboards();
    lemma_td_closing_in_proboards();
    lemma_i_closing_in_proboards();
    lemma_b_closing_in_proboards();
    lemma_s_closing_in_proboards();
    lemma_a_closing_in_proboards();
    lemma_hr_in_proboards();
    lemma_space_in_proboards();
    lemma_font_size_in_proboards();
    lemma_bold_underline_in_proboards();
    lemma_a_href_in_proboards();
    lemma_quote_bracket_in_proboards();
    lemma_img_src_in_proboards();
    lemma_alt_in_proboards();
    lemma_tt_in_proboards();
    lemma_tt_closing_in_proboards();
    lemma_sup_in_proboards();
    lemma_sup_closing_in_proboards();
}

} // verus!
