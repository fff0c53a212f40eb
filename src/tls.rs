//! Planning of the gateway's own transport credentials.
use vstd::prelude::*;
use vstd::string::StrSliceExecFns;
use vstd::string::StringExecFns;

verus! {

/// The entries of `s` between the separators `sep`, in order; a text with no
/// separator is one entry, and an empty text is one empty entry.
pub open spec fn split_on(s: Seq<char>, sep: char) -> Seq<Seq<char>>
    decreases s.len(),
{
    if s.len() == 0 {
        seq![Seq::<char>::empty()]
    } else {
        let before = split_on(s.drop_last(), sep);
        if s.last() == sep {
            before.push(Seq::<char>::empty())
        } else {
            before.update(before.len() - 1, before.last().push(s.last()))
        }
    }
}

/// How many times `c` occurs in `s`.
pub open spec fn count_char(s: Seq<char>, c: char) -> nat
    decreases s.len(),
{
    if s.len() == 0 {
        0
    } else {
        count_char(s.drop_last(), c) + if s.last() == c { 1nat } else { 0nat }
    }
}

/// The views of a list of strings.
pub open spec fn views(v: Seq<String>) -> Seq<Seq<char>> {
    v.map_values(|t: String| t@)
}

/// The address list as the user wrote it, split at its commas.
pub open spec fn tls_ip_list(s: Seq<char>) -> Seq<Seq<char>> {
    split_on(s, ',')
}

proof fn lemma_split_nonempty(s: Seq<char>, sep: char)
    ensures
        split_on(s, sep).len() >= 1,
    decreases s.len(),
{
    if s.len() > 0 {
        lemma_split_nonempty(s.drop_last(), sep);
    }
}

/// There is one more entry than there are separators.
pub proof fn lemma_split_len(s: Seq<char>, sep: char)
    ensures
        split_on(s, sep).len() == count_char(s, sep) + 1,
    decreases s.len(),
{
    if s.len() > 0 {
        lemma_split_len(s.drop_last(), sep);
        lemma_split_nonempty(s.drop_last(), sep);
    }
}

/// The entries `ps` written one after another with `sep` between them.
pub open spec fn join_with(ps: Seq<Seq<char>>, sep: char) -> Seq<char>
    decreases ps.len(),
{
    if ps.len() == 0 {
        Seq::<char>::empty()
    } else if ps.len() == 1 {
        ps[0]
    } else {
        join_with(ps.drop_last(), sep) + seq![sep] + ps.last()
    }
}

proof fn lemma_join_extend_last(ps: Seq<Seq<char>>, sep: char, c: char)
    requires
        ps.len() >= 1,
    ensures
        join_with(ps.update(ps.len() - 1, ps.last().push(c)), sep) == join_with(ps, sep).push(c),
{
    let qs = ps.update(ps.len() - 1, ps.last().push(c));
    if ps.len() > 1 {
        assert(qs.drop_last() =~= ps.drop_last());
    }
}

/// Splitting keeps every character in its place: writing the entries back
/// with the separator between them gives the text that was split.
pub proof fn lemma_split_join(s: Seq<char>, sep: char)
    ensures
        join_with(split_on(s, sep), sep) == s,
    decreases s.len(),
{
    if s.len() > 0 {
        let p = s.drop_last();
        lemma_split_join(p, sep);
        lemma_split_nonempty(p, sep);
        let before = split_on(p, sep);
        if s.last() == sep {
            assert(before.push(Seq::<char>::empty()).drop_last() =~= before);
            assert(join_with(before.push(Seq::<char>::empty()), sep) =~= s);
        } else {
            lemma_join_extend_last(before, sep, s.last());
            assert(p.push(s.last()) =~= s);
        }
    }
}

/// Whether an address list was given: an absent or empty one gives no list.
pub open spec fn has_tls_ips(tls_ips_str: Option<String>) -> bool {
    tls_ips_str is Some && tls_ips_str->0@.len() > 0
}

/// Turns the comma-delimited address list into its entries; an absent or
/// empty list gives no list at all.
pub fn collect_tls_ips(tls_ips_str: Option<String>) -> (r: Option<Vec<String>>)
    ensures
        r is Some <==> has_tls_ips(tls_ips_str),
        r is Some ==> views(r->0@) == tls_ip_list(tls_ips_str->0@),
{
    match tls_ips_str {
        None => None,
        Some(text) => if text.as_str().unicode_len() == 0 {
            None
        } else {
            Some(split_text(text.as_str(), ','))
        },
    }
}

/// Splits `s` at each occurrence of `sep`.
pub fn split_text(s: &str, sep: char) -> (r: Vec<String>)
    ensures
        views(r@) == split_on(s@, sep),
{
    let n = s.unicode_len();
    let mut tokens: Vec<String> = Vec::new();
    let mut start: usize = 0;
    let mut i: usize = 0;
    proof {
        assert(s@.take(0) =~= Seq::<char>::empty());
        assert(views(tokens@).push(s@.subrange(0, 0)) =~= split_on(Seq::<char>::empty(), sep));
    }
    while i < n
        invariant
            n == s@.len(),
            start <= i <= n,
            split_on(s@.take(i as int), sep) == views(tokens@).push(s@.subrange(start as int, i as int)),
        decreases n - i,
    {
        let c = s.get_char(i);
        proof {
            assert(s@.take(i + 1).drop_last() =~= s@.take(i as int));
            assert(s@.take(i + 1).last() == c);
        }
        if c == sep {
            let piece = String::from_str(s.substring_char(start, i));
            let ghost prev = tokens@;
            tokens.push(piece);
            start = i + 1;
            proof {
                assert(views(tokens@) =~= views(prev).push(piece@));
                assert(s@.subrange(start as int, i + 1) =~= Seq::<char>::empty());
            }
        } else {
            proof {
                assert(s@.subrange(start as int, i + 1) =~= s@.subrange(start as int, i as int).push(c));
            }
        }
        i = i + 1;
    }
    let last = String::from_str(s.substring_char(start, n));
    let ghost prev = tokens@;
    tokens.push(last);
    proof {
        assert(views(tokens@) =~= views(prev).push(last@));
        assert(s@.take(n as int) =~= s@);
    }
    tokens
}

/// Permission bits of the private key file: read and write for its owner alone.
pub const TLS_KEY_FILE_MODE: u32 = 0o600;

/// The names a fresh certificate is issued for: `localhost`, then each
/// address of the list, in order; `localhost` alone when no list was given.
pub open spec fn subject_alt_names(tls_ips_str: Option<String>) -> Seq<Seq<char>> {
    if has_tls_ips(tls_ips_str) {
        seq!["localhost"@] + tls_ip_list(tls_ips_str->0@)
    } else {
        seq!["localhost"@]
    }
}

/// What starting the service does about its certificate, given whether the
/// key and certificate files exist: nothing when both do, else issue a fresh
/// certificate for the names returned.
pub fn plan_tls_creds(key_exists: bool, cert_exists: bool, tls_ips_str: Option<String>) -> (r: Option<Vec<String>>)
    ensures
        r is Some <==> issues_fresh_creds(key_exists, cert_exists),
        r is Some ==> views(r->0@) == subject_alt_names(tls_ips_str),
{
    if key_exists && cert_exists {
        return None;
    }
    let ghost ips = tls_ips_str;
    let mut names: Vec<String> = Vec::new();
    names.push(String::from_str("localhost"));
    match collect_tls_ips(tls_ips_str) {
        Some(ips_list) => {
            let mut i: usize = 0;
            while i < ips_list.len()
                invariant
                    has_tls_ips(ips),
                    views(ips_list@) == tls_ip_list(ips->0@),
                    i <= ips_list@.len(),
                    views(names@) == seq!["localhost"@] + views(ips_list@).take(i as int),
                decreases ips_list@.len() - i,
            {
                let ghost prev = names@;
                names.push(ips_list[i].clone());
                i = i + 1;
                proof {
                    assert(views(names@) =~= views(prev).push(ips_list@[i - 1]@));
                    assert(views(ips_list@).take(i as int) =~= views(ips_list@).take(i - 1).push(ips_list@[i - 1]@));
                }
            }
            proof {
                assert(views(ips_list@).take(ips_list@.len() as int) =~= views(ips_list@));
            }
        },
        None => {
            proof {
                assert(views(names@) =~= subject_alt_names(ips));
            }
        },
    }
    Some(names)
}

/// Whether a start with these files present issues a fresh certificate.
pub open spec fn issues_fresh_creds(key_exists: bool, cert_exists: bool) -> bool {
    !(key_exists && cert_exists)
}

/// Starting the service twice leaves the files of the first start alone: a
/// first start either finds both files or writes both, and with both present
/// nothing is issued.
pub proof fn lemma_tls_creds_idempotent()
    ensures
        !issues_fresh_creds(true, true),
{
}

} // verus!
