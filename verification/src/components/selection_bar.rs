//! The bar over a selection: the links that its copy button puts on the clipboard.
use vstd::prelude::*;

verus! {

/// The share link of an item.
pub open spec fn share_link(host: Seq<char>, id: Seq<char>) -> Seq<char> {
    host + "/m/"@ + id
}

/// The share links of the items, one per line.
pub open spec fn share_links_text(host: Seq<char>, ids: Seq<Seq<char>>) -> Seq<char>
    decreases ids.len(),
{
    if ids.len() == 0 {
        Seq::empty()
    } else if ids.len() == 1 {
        share_link(host, ids[0])
    } else {
        share_links_text(host, ids.drop_last()) + "\n"@ + share_link(host, ids.last())
    }
}

/// The links are joined by line breaks: no ids give an empty text, one id gives its link alone,
/// and each further id adds a line break and then its link `host/m/id`.
pub proof fn lemma_links_are_joined_by_line_breaks(host: Seq<char>, ids: Seq<Seq<char>>, x: Seq<char>)
    ensures
        share_links_text(host, Seq::empty()) == Seq::<char>::empty(),
        share_links_text(host, seq![x]) == host + "/m/"@ + x,
        ids.len() > 0 ==> share_links_text(host, ids.push(x)) == share_links_text(host, ids) + "\n"@
            + host + "/m/"@ + x,
{
    assert(seq![x][0] == x);
    if ids.len() > 0 {
        assert(ids.push(x).drop_last() =~= ids);
        assert(ids.push(x).last() == x);
        assert(share_links_text(host, ids.push(x)) =~= share_links_text(host, ids) + "\n"@ + host
            + "/m/"@ + x);
    }
}

/// The text that the copy button puts on the clipboard: the share link of each selected item
/// under `host`, joined by line breaks.
pub fn share_links(host: &str, ids: &Vec<String>) -> (text: String)
    ensures
        text@ == share_links_text(host@, ids.deep_view()),
{
    let ghost s = ids.deep_view();
    let mut text = String::new();
    let mut i: usize = 0;
    assert(s.take(0) =~= Seq::<Seq<char>>::empty());
    while i < ids.len()
        invariant
            i <= ids@.len(),
            s == ids.deep_view(),
            s.len() == ids@.len(),
            text@ == share_links_text(host@, s.take(i as int)),
        decreases ids@.len() - i,
    {
        assert(s.take(i + 1).drop_last() =~= s.take(i as int));
        assert(s.take(i + 1).last() == s[i as int]);
        if i != 0 {
            text.append("\n");
        }
        text.append(host);
        text.append("/m/");
        text.append(ids[i].as_str());
        proof {
            if i == 0 {
                assert(s.take(1)[0] == s[0]);
            }
        }
        assert(text@ =~= share_links_text(host@, s.take(i + 1)));
        i = i + 1;
    }
    assert(s.take(s.len() as int) =~= s);
    text
}

} // verus!
