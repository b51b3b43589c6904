//! Base64 data URLs: `data:<mime>[;param...];base64,<payload>`.

use crate::text::to_chars;
use vstd::prelude::*;

verus! {

/// The index of the first `c` in `s`, or the length of `s` where there is none.
pub open spec fn position(s: Seq<char>, c: char) -> nat
    decreases s.len(),
{
    if s.len() == 0 || s.first() == c {
        0
    } else {
        1 + position(s.drop_first(), c)
    }
}

/// The pieces of `s` between its separators: one more than there are separators.
pub open spec fn split(s: Seq<char>, sep: char) -> Seq<Seq<char>>
    decreases s.len(),
{
    let p = position(s, sep) as int;
    if 0 <= p < s.len() {
        seq![s.take(p)] + split(s.skip(p + 1), sep)
    } else {
        seq![s]
    }
}

/// `c`, in lower case where it is an ASCII letter.
pub open spec fn ascii_lower(c: char) -> char {
    if 'A' <= c <= 'Z' {
        (c as u32 + 32) as char
    } else {
        c
    }
}

/// Equality of texts up to the case of their ASCII letters.
pub open spec fn same_ignoring_ascii_case(a: Seq<char>, b: Seq<char>) -> bool {
    &&& a.len() == b.len()
    &&& forall|i: int| 0 <= i < a.len() ==> ascii_lower(#[trigger] a[i]) == ascii_lower(b[i])
}

/// The parameter that marks a payload as base64, in any ASCII case.
pub open spec fn is_base64_tag(field: Seq<char>) -> bool {
    same_ignoring_ascii_case(field, "base64"@)
}

/// Some field is the base64 tag.
pub open spec fn has_base64_tag(fields: Seq<Seq<char>>) -> bool {
    exists|i: int| 0 <= i < fields.len() && is_base64_tag(#[trigger] fields[i])
}

/// The first field that is not the base64 tag; the empty text where there is none.
pub open spec fn media_type(fields: Seq<Seq<char>>) -> Seq<char>
    decreases fields.len(),
{
    if fields.len() == 0 {
        Seq::empty()
    } else if is_base64_tag(fields.first()) {
        media_type(fields.drop_first())
    } else {
        fields.first()
    }
}

/// The media type and the payload of a base64 data URL: behind `data:`, the text up to the first
/// comma is the header and the text behind that comma is the payload. The payload must not be
/// empty, and one of the header's `;`-separated fields must be the base64 tag.
pub open spec fn data_url_parts(url: Seq<char>) -> Option<(Seq<char>, Seq<char>)> {
    let rest = url.skip(5);
    let comma = position(rest, ',') as int;
    let fields = split(rest.take(comma), ';');
    if url.len() >= 5 && url.take(5) == "data:"@ && comma + 1 < rest.len() && has_base64_tag(
        fields,
    ) {
        Some((media_type(fields), rest.skip(comma + 1)))
    } else {
        None
    }
}

/// What `position` is: no earlier character is `c`, and the one there is `c`.
proof fn lemma_position(s: Seq<char>, c: char)
    ensures
        position(s, c) <= s.len(),
        position(s, c) < s.len() ==> s[position(s, c) as int] == c,
        forall|i: int| 0 <= i < position(s, c) ==> s[i] != c,
    decreases s.len(),
{
    if s.len() > 0 && s.first() != c {
        let rest = s.drop_first();
        lemma_position(rest, c);
        assert forall|i: int| 0 <= i < position(s, c) implies s[i] != c by {
            if i > 0 {
                assert(s[i] == rest[i - 1]);
            }
        }
    }
}

/// An index with the two properties of `lemma_position` is the position.
proof fn lemma_position_unique(s: Seq<char>, c: char, p: int)
    requires
        0 <= p <= s.len(),
        p < s.len() ==> s[p] == c,
        forall|i: int| 0 <= i < p ==> s[i] != c,
    ensures
        position(s, c) == p,
{
    lemma_position(s, c);
    let q = position(s, c) as int;
    if q < p {
        assert(s[q] != c);
    } else if p < q {
        assert(s[p] != c);
    }
}

/// A separator splits a text into the pieces before it and the pieces behind it.
proof fn lemma_split_at_separator(a: Seq<char>, b: Seq<char>, sep: char)
    ensures
        split(a + seq![sep] + b, sep) == split(a, sep) + split(b, sep),
    decreases a.len(),
{
    let whole = a + seq![sep] + b;
    lemma_position(a, sep);
    let p = position(a, sep) as int;
    assert(forall|i: int| 0 <= i < a.len() ==> whole[i] == a[i]);
    assert(whole[a.len() as int] == sep);
    lemma_position_unique(whole, sep, p);
    assert(whole.take(p) =~= a.take(p));
    if p < a.len() {
        lemma_split_at_separator(a.skip(p + 1), b, sep);
        assert(whole.skip(p + 1) =~= a.skip(p + 1) + seq![sep] + b);
        assert(split(whole, sep) =~= split(a, sep) + split(b, sep));
    } else {
        assert(a.take(p) =~= a);
        assert(whole.skip(p + 1) =~= b);
    }
}

/// A text without separators is its own only piece.
proof fn lemma_split_without_separator(s: Seq<char>, sep: char)
    requires
        !s.contains(sep),
    ensures
        split(s, sep) == seq![s],
{
    lemma_position_unique(s, sep, s.len() as int);
}

/// The first piece of a split, and that there is one.
proof fn lemma_split_head(s: Seq<char>, sep: char)
    ensures
        split(s, sep).len() > 0,
        split(s, sep).first() == s.take(position(s, sep) as int),
{
    lemma_position(s, sep);
    assert(s.take(s.len() as int) =~= s);
}

/// No piece of a split holds a separator, nor a character that the text does not hold.
proof fn lemma_split_pieces(s: Seq<char>, sep: char)
    ensures
        forall|i: int, k: int|
            0 <= i < split(s, sep).len() && 0 <= k < split(s, sep)[i].len()
                ==> #[trigger] split(s, sep)[i][k] != sep && s.contains(split(s, sep)[i][k]),
    decreases s.len(),
{
    lemma_position(s, sep);
    let p = position(s, sep) as int;
    let pieces = split(s, sep);
    if p < s.len() {
        let rest = s.skip(p + 1);
        lemma_split_pieces(rest, sep);
        assert forall|i: int, k: int|
            0 <= i < pieces.len() && 0 <= k < pieces[i].len() implies #[trigger] pieces[i][k] != sep
            && s.contains(pieces[i][k]) by {
            if i == 0 {
                assert(pieces[i][k] == s[k]);
            } else {
                assert(pieces[i] == split(rest, sep)[i - 1]);
                let c = split(rest, sep)[i - 1][k];
                assert(rest.contains(c));
                let m = choose|m: int| 0 <= m < rest.len() && rest[m] == c;
                assert(s[m + p + 1] == c);
            }
        }
    }
}

/// The media type is one of the fields and not the base64 tag, or empty.
proof fn lemma_media_type(fields: Seq<Seq<char>>)
    ensures
        fields.contains(media_type(fields)) && !is_base64_tag(media_type(fields)) || media_type(
            fields,
        ).len() == 0,
    decreases fields.len(),
{
    if fields.len() > 0 {
        if is_base64_tag(fields.first()) {
            let rest = fields.drop_first();
            lemma_media_type(rest);
            if rest.contains(media_type(rest)) {
                let i = choose|i: int| 0 <= i < rest.len() && rest[i] == media_type(rest);
                assert(fields[i + 1] == media_type(rest));
            }
        } else {
            assert(fields[0] == fields.first());
        }
    }
}

/// Reading gives back what a data URL was written from: the media type and the payload of
/// `data:<mime><params>;<tag>,<payload>` are `mime` and `payload`. The media type may be empty, the
/// parameters may be none or any number of `;param`, and the base64 tag may be in any ASCII case.
pub proof fn law_parsing_reads_back_a_written_url(
    mime: Seq<char>,
    params: Seq<char>,
    tag: Seq<char>,
    payload: Seq<char>,
)
    requires
        !mime.contains(','),
        !mime.contains(';'),
        !is_base64_tag(mime),
        !params.contains(','),
        params.len() > 0 ==> params.first() == ';',
        is_base64_tag(tag),
        payload.len() > 0,
    ensures
        data_url_parts("data:"@ + mime + params + seq![';'] + tag + seq![','] + payload) == Some(
            (mime, payload),
        ),
{
    reveal_strlit("data:");
    reveal_strlit("base64");
    let url = "data:"@ + mime + params + seq![';'] + tag + seq![','] + payload;
    let meta = mime + params + seq![';'] + tag;
    let rest = url.skip(5);
    assert(url.take(5) =~= "data:"@);
    assert(rest =~= meta + seq![','] + payload);
    assert forall|i: int| 0 <= i < tag.len() implies tag[i] != ',' && tag[i] != ';' by {
        assert(ascii_lower(tag[i]) == ascii_lower("base64"@[i]));
    }
    assert forall|i: int| 0 <= i < meta.len() implies rest[i] != ',' by {
        let m = mime.len();
        let p = params.len();
        if i < m {
            assert(rest[i] == mime[i]);
        } else if i < m + p {
            assert(rest[i] == params[i - m]);
        } else if i > m + p {
            assert(rest[i] == tag[i - m - p - 1]);
        }
    }
    lemma_position_unique(rest, ',', meta.len() as int);
    assert(rest.take(meta.len() as int) =~= meta);
    assert(rest.skip(meta.len() as int + 1) =~= payload);

    let fields = split(meta, ';');
    lemma_split_at_separator(mime + params, tag, ';');
    lemma_split_without_separator(tag, ';');
    assert(fields == split(mime + params, ';') + seq![tag]);
    assert(fields.last() == tag);
    assert(has_base64_tag(fields));
    lemma_split_without_separator(mime, ';');
    if params.len() > 0 {
        lemma_split_at_separator(mime, params.drop_first(), ';');
        assert(mime + params =~= mime + seq![';'] + params.drop_first());
    } else {
        assert(mime + params =~= mime);
    }
    assert(fields.first() == mime);
}

/// What every accepted URL is: `data:`, a header without commas, a comma and a payload that is not
/// empty. The media type holds neither `,` nor `;` and is not the base64 tag.
pub proof fn law_accepted_url_shape(url: Seq<char>)
    requires
        data_url_parts(url) is Some,
    ensures
        ({
            let (mime, payload) = data_url_parts(url)->0;
            let meta = url.skip(5).take(position(url.skip(5), ',') as int);
            &&& url == "data:"@ + meta + seq![','] + payload
            &&& !meta.contains(',')
            &&& payload.len() > 0
            &&& !mime.contains(',')
            &&& !mime.contains(';')
            &&& !is_base64_tag(mime)
        }),
{
    reveal_strlit("data:");
    reveal_strlit("base64");
    let (mime, payload) = data_url_parts(url)->0;
    let rest = url.skip(5);
    lemma_position(rest, ',');
    let comma = position(rest, ',') as int;
    let meta = rest.take(comma);
    assert(forall|i: int| 0 <= i < meta.len() ==> meta[i] == rest[i]);
    assert(url =~= url.take(5) + meta + seq![','] + payload);
    let fields = split(meta, ';');
    lemma_split_pieces(meta, ';');
    lemma_media_type(fields);
    if mime.len() > 0 {
        let k = choose|k: int| 0 <= k < fields.len() && fields[k] == mime;
        assert forall|j: int| 0 <= j < mime.len() implies mime[j] != ',' && mime[j] != ';' by {
            assert(fields[k][j] == mime[j]);
        }
    }
}

/// The two spellings that a base64 tag is made of, character by character.
proof fn lemma_tag_spelling(tag: Seq<char>)
    ensures
        is_base64_tag(tag) <==> tag.len() == 6 && forall|k: int|
            0 <= k < 6 ==> #[trigger] tag[k] == "base64"@[k] || tag[k] == "BASE64"@[k],
{
    reveal_strlit("base64");
    reveal_strlit("BASE64");
    if is_base64_tag(tag) {
        assert forall|k: int| 0 <= k < 6 implies #[trigger] tag[k] == "base64"@[k] || tag[k]
            == "BASE64"@[k] by {
            assert(ascii_lower(tag[k]) == ascii_lower("base64"@[k]));
        }
    }
    if tag.len() == 6 && forall|k: int|
        0 <= k < 6 ==> #[trigger] tag[k] == "base64"@[k] || tag[k] == "BASE64"@[k] {
        assert forall|k: int| 0 <= k < tag.len() implies ascii_lower(#[trigger] tag[k])
            == ascii_lower("base64"@[k]) by {
            assert(tag[k] == "base64"@[k] || tag[k] == "BASE64"@[k]);
        }
    }
}

/// The parts of a URL that is written out as a header without commas and a payload.
proof fn lemma_parts_of_written(meta: Seq<char>, payload: Seq<char>)
    requires
        !meta.contains(','),
    ensures
        data_url_parts("data:"@ + meta + seq![','] + payload) == (if payload.len() > 0
            && has_base64_tag(split(meta, ';')) {
            Some((media_type(split(meta, ';')), payload))
        } else {
            None
        }),
{
    reveal_strlit("data:");
    let url = "data:"@ + meta + seq![','] + payload;
    let rest = url.skip(5);
    assert(url.take(5) =~= "data:"@);
    assert(rest =~= meta + seq![','] + payload);
    assert forall|i: int| 0 <= i < meta.len() implies rest[i] != ',' by {
        assert(rest[i] == meta[i]);
    }
    lemma_position_unique(rest, ',', meta.len() as int);
    assert(rest.take(meta.len() as int) =~= meta);
    assert(rest.skip(meta.len() as int + 1) =~= payload);
}

/// A text that starts with `field`, and goes on with a separator if at all, has it as first piece.
proof fn lemma_split_first(field: Seq<char>, post: Seq<char>, sep: char)
    requires
        !field.contains(sep),
        post.len() > 0 ==> post.first() == sep,
    ensures
        split(field + post, sep).len() > 0,
        split(field + post, sep).first() == field,
{
    lemma_split_without_separator(field, sep);
    if post.len() > 0 {
        lemma_split_at_separator(field, post.drop_first(), sep);
        assert(field + post =~= field + seq![sep] + post.drop_first());
    } else {
        assert(field + post =~= field);
    }
}

/// The text before a piece of a split, and the text behind it.
proof fn lemma_split_locate(s: Seq<char>, sep: char, k: int) -> (r: (Seq<char>, Seq<char>))
    requires
        0 <= k < split(s, sep).len(),
    ensures
        s == r.0 + split(s, sep)[k] + r.1,
        r.0.len() > 0 ==> r.0.last() == sep,
        r.1.len() > 0 ==> r.1.first() == sep,
    decreases s.len(),
{
    lemma_position(s, sep);
    let p = position(s, sep) as int;
    if k == 0 {
        lemma_split_head(s, sep);
        assert(s =~= Seq::<char>::empty() + s.take(p) + s.skip(p));
        (Seq::empty(), s.skip(p))
    } else {
        let rest = s.skip(p + 1);
        let (pre, post) = lemma_split_locate(rest, sep, k - 1);
        let before = s.take(p + 1) + pre;
        assert(split(s, sep)[k] == split(rest, sep)[k - 1]);
        assert(s =~= s.take(p + 1) + rest);
        assert(s =~= before + split(s, sep)[k] + post);
        (before, post)
    }
}

/// A base64 tag at the end of the fields does not change the media type.
proof fn lemma_media_type_before_tag(fields: Seq<Seq<char>>, tag: Seq<char>)
    requires
        is_base64_tag(tag),
    ensures
        media_type(fields + seq![tag]) == media_type(fields),
    decreases fields.len(),
{
    let longer = fields + seq![tag];
    if fields.len() == 0 {
        assert(longer.drop_first() =~= fields);
        assert(longer.first() == tag);
    } else {
        assert(longer.first() == fields.first());
        assert(longer.drop_first() =~= fields.drop_first() + seq![tag]);
        lemma_media_type_before_tag(fields.drop_first(), tag);
    }
}

/// Every accepted URL has the base64 tag: behind `data:` comes a header without commas, one of
/// whose `;`-separated fields spells `base64` in lower case, upper case or a mix of the two; then a
/// comma; then a payload that is not empty and is what was read.
pub proof fn law_accepted_url_has_the_base64_tag(url: Seq<char>)
    requires
        data_url_parts(url) is Some,
    ensures
        exists|pre: Seq<char>, tag: Seq<char>, post: Seq<char>|
            {
                &&& url == #[trigger] ("data:"@ + pre + tag + post + seq![','] + (
                data_url_parts(url)->0).1)
                &&& !pre.contains(',')
                &&& !post.contains(',')
                &&& pre.len() > 0 ==> pre.last() == ';'
                &&& post.len() > 0 ==> post.first() == ';'
                &&& tag.len() == 6
                &&& forall|k: int|
                    0 <= k < 6 ==> #[trigger] tag[k] == "base64"@[k] || tag[k] == "BASE64"@[k]
            },
        (data_url_parts(url)->0).1.len() > 0,
{
    law_accepted_url_shape(url);
    let payload = (data_url_parts(url)->0).1;
    let meta = url.skip(5).take(position(url.skip(5), ',') as int);
    let fields = split(meta, ';');
    let k = choose|k: int| 0 <= k < fields.len() && is_base64_tag(#[trigger] fields[k]);
    let tag = fields[k];
    let (pre, post) = lemma_split_locate(meta, ';', k);
    lemma_tag_spelling(tag);
    assert forall|i: int| 0 <= i < pre.len() implies pre[i] != ',' by {
        assert(meta[i] == pre[i]);
    }
    assert forall|i: int| 0 <= i < post.len() implies post[i] != ',' by {
        assert(meta[pre.len() + tag.len() + i] == post[i]);
    }
    assert(url =~= "data:"@ + pre + tag + post + seq![','] + payload);
}

/// Every URL with the base64 tag is accepted, wherever among the `;`-separated fields of the header
/// the tag stands, and its payload is everything behind the first comma.
pub proof fn law_url_with_the_base64_tag_is_accepted(
    pre: Seq<char>,
    tag: Seq<char>,
    post: Seq<char>,
    payload: Seq<char>,
)
    requires
        !pre.contains(','),
        !post.contains(','),
        pre.len() > 0 ==> pre.last() == ';',
        post.len() > 0 ==> post.first() == ';',
        tag.len() == 6,
        forall|k: int|
            0 <= k < 6 ==> #[trigger] tag[k] == "base64"@[k] || tag[k] == "BASE64"@[k],
        payload.len() > 0,
    ensures
        data_url_parts("data:"@ + pre + tag + post + seq![','] + payload) is Some,
        (data_url_parts("data:"@ + pre + tag + post + seq![','] + payload)->0).1 == payload,
{
    reveal_strlit("base64");
    reveal_strlit("BASE64");
    lemma_tag_spelling(tag);
    let meta = pre + tag + post;
    assert forall|i: int| 0 <= i < tag.len() implies tag[i] != ',' && tag[i] != ';' by {
        assert(tag[i] == "base64"@[i] || tag[i] == "BASE64"@[i]);
    }
    assert forall|i: int| 0 <= i < meta.len() implies meta[i] != ',' by {
        let m = pre.len();
        if i < m {
            assert(meta[i] == pre[i]);
        } else if i < m + 6 {
            assert(meta[i] == tag[i - m]);
        } else {
            assert(meta[i] == post[i - m - 6]);
        }
    }
    assert("data:"@ + pre + tag + post + seq![','] + payload =~= "data:"@ + meta + seq![',']
        + payload);
    lemma_parts_of_written(meta, payload);
    lemma_split_first(tag, post, ';');
    let tail = split(tag + post, ';');
    if pre.len() > 0 {
        lemma_split_at_separator(pre.drop_last(), tag + post, ';');
        assert(meta =~= pre.drop_last() + seq![';'] + (tag + post));
        let head = split(pre.drop_last(), ';');
        assert((head + tail)[head.len() as int] == tail[0]);
    } else {
        assert(meta =~= tag + post);
        assert(tail[0] == tag);
    }
    assert(has_base64_tag(split(meta, ';')));
}

/// The media type is the first field where that is not the base64 tag.
pub proof fn law_media_type_is_the_first_field(
    first: Seq<char>,
    post: Seq<char>,
    payload: Seq<char>,
)
    requires
        !first.contains(','),
        !first.contains(';'),
        !(first.len() == 6 && forall|k: int|
            0 <= k < 6 ==> #[trigger] first[k] == "base64"@[k] || first[k] == "BASE64"@[k]),
        !post.contains(','),
        post.len() > 0 ==> post.first() == ';',
        data_url_parts("data:"@ + first + post + seq![','] + payload) is Some,
    ensures
        data_url_parts("data:"@ + first + post + seq![','] + payload) == Some((first, payload)),
{
    lemma_tag_spelling(first);
    let meta = first + post;
    assert forall|i: int| 0 <= i < meta.len() implies meta[i] != ',' by {
        if i < first.len() {
            assert(meta[i] == first[i]);
        } else {
            assert(meta[i] == post[i - first.len()]);
        }
    }
    assert("data:"@ + first + post + seq![','] + payload =~= "data:"@ + meta + seq![','] + payload);
    lemma_parts_of_written(meta, payload);
    lemma_split_first(first, post, ';');
}

/// A base64 tag in front is passed over: the URL reads as the one with the tag behind the rest of
/// the header.
pub proof fn law_leading_tag_is_no_media_type(
    tag: Seq<char>,
    header: Seq<char>,
    payload: Seq<char>,
)
    requires
        tag.len() == 6,
        forall|k: int|
            0 <= k < 6 ==> #[trigger] tag[k] == "base64"@[k] || tag[k] == "BASE64"@[k],
        !header.contains(','),
        payload.len() > 0,
    ensures
        data_url_parts("data:"@ + tag + seq![';'] + header + seq![','] + payload) == data_url_parts(
            "data:"@ + header + ";base64"@ + seq![','] + payload,
        ),
{
    reveal_strlit("base64");
    reveal_strlit("BASE64");
    reveal_strlit(";base64");
    lemma_tag_spelling(tag);
    lemma_tag_spelling("base64"@);
    let last = "base64"@;
    let one = tag + seq![';'] + header;
    let two = header + ";base64"@;
    assert(two =~= header + seq![';'] + last);
    assert forall|i: int| 0 <= i < tag.len() implies tag[i] != ',' && tag[i] != ';' by {
        assert(tag[i] == "base64"@[i] || tag[i] == "BASE64"@[i]);
    }
    assert forall|i: int| 0 <= i < one.len() implies one[i] != ',' by {
        if i < 6 {
            assert(one[i] == tag[i]);
        } else if i > 6 {
            assert(one[i] == header[i - 7]);
        }
    }
    assert forall|i: int| 0 <= i < two.len() implies two[i] != ',' by {
        if i < header.len() {
            assert(two[i] == header[i]);
        } else {
            assert(two[i] == ";base64"@[i - header.len()]);
        }
    }
    assert("data:"@ + tag + seq![';'] + header + seq![','] + payload =~= "data:"@ + one + seq![',']
        + payload);
    assert("data:"@ + header + ";base64"@ + seq![','] + payload =~= "data:"@ + two + seq![',']
        + payload);
    lemma_parts_of_written(one, payload);
    lemma_parts_of_written(two, payload);
    lemma_split_at_separator(tag, header, ';');
    lemma_split_at_separator(header, last, ';');
    lemma_split_without_separator(tag, ';');
    lemma_split_without_separator(last, ';');
    let fields = split(header, ';');
    assert(split(one, ';') == seq![tag] + fields);
    assert(split(two, ';') == fields + seq![last]);
    assert(is_base64_tag((seq![tag] + fields)[0]));
    assert(is_base64_tag((fields + seq![last])[fields.len() as int]));
    assert((seq![tag] + fields).drop_first() =~= fields);
    lemma_media_type_before_tag(fields, last);
}

/// A header that is nothing but the base64 tag has an empty media type.
pub proof fn law_lone_tag_has_an_empty_media_type(tag: Seq<char>, payload: Seq<char>)
    requires
        tag.len() == 6,
        forall|k: int|
            0 <= k < 6 ==> #[trigger] tag[k] == "base64"@[k] || tag[k] == "BASE64"@[k],
        payload.len() > 0,
    ensures
        data_url_parts("data:"@ + tag + seq![','] + payload) == Some(
            (Seq::<char>::empty(), payload),
        ),
{
    reveal_strlit("base64");
    reveal_strlit("BASE64");
    lemma_tag_spelling(tag);
    assert forall|i: int| 0 <= i < tag.len() implies tag[i] != ',' && tag[i] != ';' by {
        assert(tag[i] == "base64"@[i] || tag[i] == "BASE64"@[i]);
    }
    lemma_parts_of_written(tag, payload);
    lemma_split_without_separator(tag, ';');
    let fields = seq![tag];
    assert(is_base64_tag(fields[0]));
    assert(fields.drop_first() =~= Seq::<Seq<char>>::empty());
    assert(media_type(fields.drop_first()) =~= Seq::<char>::empty());
}

/// The index of the first `c` in `s`, or the number of its characters.
fn find_char(s: &str, c: char) -> (r: usize)
    ensures
        r == position(s@, c),
        r <= s@.len(),
{
    let n: usize = s.unicode_len();
    let mut i: usize = 0;
    for d in it: s.chars()
        invariant
            it.seq() == s@,
            n == s@.len(),
            i == it.index(),
            forall|k: int| 0 <= k < i ==> s@[k] != c,
    {
        if d == c {
            proof {
                lemma_position_unique(s@, c, i as int);
            }
            return i;
        }
        i = i + 1;
    }
    proof {
        lemma_position_unique(s@, c, i as int);
    }
    i
}

/// Tells whether `s` starts with `prefix`.
fn starts_with(s: &str, n: usize, prefix: &str) -> (r: bool)
    requires
        n == s@.len(),
    ensures
        r == (prefix@.len() <= s@.len() && s@.take(prefix@.len() as int) == prefix@),
{
    let m: usize = prefix.unicode_len();
    if n < m {
        return false;
    }
    let mut i: usize = 0;
    while i < m
        invariant
            i <= m <= n,
            m == prefix@.len(),
            n == s@.len(),
            forall|k: int| 0 <= k < i ==> s@[k] == prefix@[k],
        decreases m - i,
    {
        if s.get_char(i) != prefix.get_char(i) {
            assert(s@.take(m as int)[i as int] != prefix@[i as int]);
            return false;
        }
        i = i + 1;
    }
    assert(s@.take(m as int) =~= prefix@);
    true
}

/// The ASCII lower case of `c`.
fn to_lower(c: char) -> (r: char)
    ensures
        r == ascii_lower(c),
{
    if 'A' <= c && c <= 'Z' {
        ((c as u8) + 32) as char
    } else {
        c
    }
}

/// Tells whether the characters from `start` up to `end` are the base64 tag.
fn is_tag(chars: &Vec<char>, start: usize, end: usize) -> (r: bool)
    requires
        start <= end <= chars@.len(),
    ensures
        r == is_base64_tag(chars@.subrange(start as int, end as int)),
{
    let ghost field = chars@.subrange(start as int, end as int);
    let tag = to_chars("base64");
    if end - start != tag.len() {
        return false;
    }
    let mut i: usize = 0;
    while i < tag.len()
        invariant
            start <= end <= chars@.len(),
            field == chars@.subrange(start as int, end as int),
            end - start == tag@.len(),
            tag@ == "base64"@,
            i <= tag@.len(),
            forall|k: int| 0 <= k < i ==> ascii_lower(#[trigger] field[k]) == ascii_lower(tag@[k]),
        decreases tag@.len() - i,
    {
        if to_lower(chars[start + i]) != to_lower(tag[i]) {
            assert(ascii_lower(field[i as int]) != ascii_lower(tag@[i as int]));
            return false;
        }
        i = i + 1;
    }
    true
}

/// Reads the fields of a header: whether one of them is the base64 tag, and where the first that
/// is not the tag starts and ends.
fn scan_fields(meta: &Vec<char>) -> (r: (bool, usize, usize))
    ensures
        r.1 <= r.2 <= meta@.len(),
        r.0 == has_base64_tag(split(meta@, ';')),
        meta@.subrange(r.1 as int, r.2 as int) == media_type(split(meta@, ';')),
{
    let n: usize = meta.len();
    let ghost fields = split(meta@, ';');
    let mut tagged: bool = false;
    let mut found: bool = false;
    let mut from: usize = 0;
    let mut to: usize = 0;
    let mut start: usize = 0;
    let mut done: bool = false;
    assert(meta@.skip(0) =~= meta@);
    while !done
        invariant
            n == meta@.len(),
            start <= n,
            from <= to <= n,
            fields == split(meta@, ';'),
            !done ==> has_base64_tag(fields) == (tagged || has_base64_tag(
                split(meta@.skip(start as int), ';'),
            )),
            done ==> has_base64_tag(fields) == tagged,
            found ==> meta@.subrange(from as int, to as int) == media_type(fields),
            !found ==> from == 0 && to == 0,
            !found && !done ==> media_type(fields) == media_type(
                split(meta@.skip(start as int), ';'),
            ),
            !found && done ==> media_type(fields).len() == 0,
        decreases n - start + if done { 0int } else { 1int },
    {
        let ghost tail = meta@.skip(start as int);
        let ghost pieces = split(tail, ';');
        let mut end: usize = start;
        while end < n && meta[end] != ';'
            invariant
                n == meta@.len(),
                start <= end <= n,
                tail == meta@.skip(start as int),
                forall|k: int| 0 <= k < end - start ==> tail[k] != ';',
            decreases n - end,
        {
            assert(tail[end - start] == meta@[end as int]);
            end = end + 1;
        }
        let ghost field = meta@.subrange(start as int, end as int);
        proof {
            assert(end < n ==> tail[end - start] == meta@[end as int]);
            lemma_position_unique(tail, ';', end - start);
            lemma_split_head(tail, ';');
            assert(tail.take(end - start) =~= field);
            assert(pieces.first() == field);
            lemma_tag_head(pieces);
        }
        let tag = is_tag(meta, start, end);
        if tag {
            tagged = true;
        } else if !found {
            found = true;
            from = start;
            to = end;
        }
        if end < n {
            proof {
                assert(tail.skip(end - start + 1) =~= meta@.skip(end + 1));
                assert(pieces.drop_first() =~= split(meta@.skip(end + 1), ';'));
            }
            start = end + 1;
        } else {
            proof {
                assert(pieces.drop_first() =~= Seq::<Seq<char>>::empty());
                assert(media_type(pieces.drop_first()).len() == 0);
            }
            done = true;
        }
    }
    proof {
        if !found {
            assert(meta@.subrange(0, 0) =~= media_type(fields));
        }
    }
    (tagged, from, to)
}

/// The base64 tag is the first field or one of the others.
proof fn lemma_tag_head(fields: Seq<Seq<char>>)
    requires
        fields.len() > 0,
    ensures
        has_base64_tag(fields) == (is_base64_tag(fields.first()) || has_base64_tag(
            fields.drop_first(),
        )),
{
    let rest = fields.drop_first();
    if has_base64_tag(rest) {
        let i = choose|i: int| 0 <= i < rest.len() && is_base64_tag(#[trigger] rest[i]);
        assert(is_base64_tag(fields[i + 1]));
    }
    if is_base64_tag(fields.first()) {
        assert(is_base64_tag(fields[0]));
    }
    if has_base64_tag(fields) && !is_base64_tag(fields.first()) {
        let i = choose|i: int| 0 <= i < fields.len() && is_base64_tag(#[trigger] fields[i]);
        assert(rest[i - 1] == fields[i]);
    }
}

/// `data:<mime>[;param...];base64,<payload>` is read as the pair of media type and payload. The
/// media type may be empty (`data:;base64,...`), so callers that need one apply their own default.
pub fn parse_data_url(url: &str) -> (r: Option<(&str, &str)>)
    ensures
        r matches Some((mime, payload)) ==> data_url_parts(url@) == Some((mime@, payload@)),
        r is None ==> data_url_parts(url@) is None,
{
    proof {
        reveal_strlit("data:");
    }
    let n: usize = url.unicode_len();
    if !starts_with(url, n, "data:") {
        return None;
    }
    let rest = url.substring_char(5, n);
    assert(rest@ =~= url@.skip(5));
    let comma: usize = find_char(rest, ',');
    if n - 5 - comma <= 1 {
        return None;
    }
    let meta = rest.substring_char(0, comma);
    assert(meta@ =~= rest@.take(comma as int));
    let (tagged, from, to) = scan_fields(&to_chars(meta));
    if !tagged {
        return None;
    }
    let payload = rest.substring_char(comma + 1, n - 5);
    assert(payload@ =~= rest@.skip(comma + 1));
    Some((meta.substring_char(from, to), payload))
}

} // verus!
