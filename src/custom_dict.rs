use vstd::prelude::*;
use vstd::string::StringExecFns;

use crate::error::BareunError;
use crate::text::{copy_str, has_prefix, strs, trim_of, trimmed};

verus! {

/// The words held by a list of strings, as a set.
pub open spec fn word_set(v: Seq<String>) -> Set<Seq<char>> {
    strs(v).to_set()
}

/// A list of strings that holds no word twice.
pub open spec fn is_word_set(v: Seq<String>) -> bool {
    strs(v).no_duplicates()
}

/// A line of a dictionary file that holds a word: not a comment (a line
/// that begins with `#`) and not blank once trimmed.
pub open spec fn is_entry_line(line: Seq<char>) -> bool {
    !"#"@.is_prefix_of(line) && trim_of(line).len() > 0
}

/// The words of a dictionary file with these lines: each entry line,
/// trimmed.
pub open spec fn dict_words(lines: Seq<Seq<char>>) -> Set<Seq<char>> {
    Set::new(
        |w: Seq<char>|
            exists|i: int| 0 <= i < lines.len() && #[trigger] is_entry_line(lines[i]) && trim_of(lines[i]) == w,
    )
}

proof fn lemma_word_set_len(v: Seq<String>)
    requires
        is_word_set(v),
    ensures
        word_set(v).len() == v.len(),
{
    strs(v).unique_seq_to_set();
}

fn contains_word(v: &Vec<String>, w: &String) -> (r: bool)
    ensures
        r == strs(v@).contains(w@),
{
    let mut i: usize = 0;
    while i < v.len()
        invariant
            i <= v.len(),
            forall|k: int| 0 <= k < i ==> v@[k]@ != w@,
        decreases v.len() - i,
    {
        if v[i] == *w {
            assert(strs(v@)[i as int] == w@);
            return true;
        }
        i += 1;
    }
    assert(!strs(v@).contains(w@)) by {
        if strs(v@).contains(w@) {
            let k = choose|k: int| 0 <= k < strs(v@).len() && strs(v@)[k] == w@;
            assert(v@[k]@ == w@);
        }
    }
    false
}

/// Adds `w` to a word set, unless it is there already.
fn add_word(v: &mut Vec<String>, w: String)
    requires
        is_word_set(old(v)@),
    ensures
        is_word_set(final(v)@),
        word_set(final(v)@) == word_set(old(v)@).insert(w@),
{
    if contains_word(v, &w) {
        assert(word_set(v@) =~= word_set(v@).insert(w@));
    } else {
        let ghost before = v@;
        v.push(w);
        assert(strs(v@) =~= strs(before).push(w@));
        proof {
            strs(before).lemma_push_to_set_commute(w@);
        }
    }
}

/// The words of `src`, each once, in the order of first appearance.
fn dedup_words(src: Vec<String>) -> (r: Vec<String>)
    ensures
        is_word_set(r@),
        word_set(r@) == word_set(src@),
{
    let mut r: Vec<String> = Vec::new();
    let mut i: usize = 0;
    assert(word_set(r@) =~= word_set(src@.take(0)));
    while i < src.len()
        invariant
            i <= src.len(),
            is_word_set(r@),
            word_set(r@) == word_set(src@.take(i as int)),
        decreases src.len() - i,
    {
        add_word(&mut r, src[i].clone());
        assert(strs(src@.take(i + 1)) =~= strs(src@.take(i as int)).push(src@[i as int]@));
        proof {
            strs(src@.take(i as int)).lemma_push_to_set_commute(src@[i as int]@);
        }
        i += 1;
    }
    assert(src@.take(src@.len() as int) =~= src@);
    r
}

proof fn lemma_dict_words_step(lines: Seq<Seq<char>>, i: int)
    requires
        0 <= i < lines.len(),
    ensures
        dict_words(lines.take(i + 1)) == (if is_entry_line(lines[i]) {
            dict_words(lines.take(i)).insert(trim_of(lines[i]))
        } else {
            dict_words(lines.take(i))
        }),
{
    let next = lines.take(i + 1);
    let prev = lines.take(i);
    let rhs = if is_entry_line(lines[i]) {
        dict_words(prev).insert(trim_of(lines[i]))
    } else {
        dict_words(prev)
    };
    assert forall|w: Seq<char>| dict_words(next).contains(w) implies rhs.contains(w) by {
        let j = choose|j: int|
            0 <= j < next.len() && #[trigger] is_entry_line(next[j]) && trim_of(next[j]) == w;
        if j < i {
            assert(prev[j] == next[j]);
            assert(dict_words(prev).contains(w));
        }
    }
    assert forall|w: Seq<char>| rhs.contains(w) implies dict_words(next).contains(w) by {
        if dict_words(prev).contains(w) {
            let j = choose|j: int|
                0 <= j < prev.len() && #[trigger] is_entry_line(prev[j]) && trim_of(prev[j]) == w;
            assert(next[j] == prev[j]);
        } else {
            assert(next[i] == lines[i]);
        }
    }
    assert(dict_words(next) =~= rhs);
}

/// The words of a dictionary file given as its lines: lines that begin
/// with `#` are comments, every other line is trimmed, and what is not
/// blank then is a word. Each word is kept once.
pub fn parse_dict_lines(lines: &Vec<String>) -> (r: Vec<String>)
    ensures
        is_word_set(r@),
        word_set(r@) == dict_words(strs(lines@)),
        r@.len() == dict_words(strs(lines@)).len(),
{
    let ghost ls = strs(lines@);
    let mut r: Vec<String> = Vec::new();
    let mut i: usize = 0;
    assert(word_set(r@) =~= dict_words(ls.take(0)));
    while i < lines.len()
        invariant
            i <= lines.len(),
            ls == strs(lines@),
            is_word_set(r@),
            word_set(r@) == dict_words(ls.take(i as int)),
        decreases lines.len() - i,
    {
        let line = lines[i].as_str();
        proof {
            lemma_dict_words_step(ls, i as int);
        }
        if !has_prefix(line, "#") {
            let t = trimmed(line);
            if !t.is_empty() {
                add_word(&mut r, copy_str(t));
            }
        }
        i += 1;
    }
    assert(ls.take(ls.len() as int) =~= ls);
    proof {
        lemma_word_set_len(r@);
    }
    r
}

/// The words that a dictionary file yields do not depend on the order of
/// its lines.
pub proof fn lemma_dict_words_order_free(a: Seq<Seq<char>>, b: Seq<Seq<char>>)
    requires
        a.to_multiset() == b.to_multiset(),
    ensures
        dict_words(a) == dict_words(b),
{
    broadcast use vstd::seq_lib::group_to_multiset_ensures;

    assert forall|w: Seq<char>| dict_words(a).contains(w) implies dict_words(b).contains(w) by {
        let i = choose|i: int| 0 <= i < a.len() && #[trigger] is_entry_line(a[i]) && trim_of(a[i]) == w;
        assert(a.contains(a[i]));
        assert(a.to_multiset().count(a[i]) > 0);
        assert(b.contains(a[i]));
        let j = choose|j: int| 0 <= j < b.len() && b[j] == a[i];
        assert(is_entry_line(b[j]));
    }
    assert forall|w: Seq<char>| dict_words(b).contains(w) implies dict_words(a).contains(w) by {
        let i = choose|i: int| 0 <= i < b.len() && #[trigger] is_entry_line(b[i]) && trim_of(b[i]) == w;
        assert(b.contains(b[i]));
        assert(b.to_multiset().count(b[i]) > 0);
        assert(a.contains(b[i]));
        let j = choose|j: int| 0 <= j < a.len() && a[j] == b[i];
        assert(is_entry_line(a[j]));
    }
    assert(dict_words(a) =~= dict_words(b));
}

/// The kind of a word list the dictionary service keeps.
#[derive(Clone, Copy, Debug, PartialEq, Eq, Structural)]
pub enum DictType {
    /// A kind this library does not read.
    Other,
    /// A plain list of words.
    WordList,
}

/// A word list as the dictionary service keeps it: a name, its kind, and
/// each word with its count.
#[derive(Debug)]
pub struct DictSet {
    pub name: String,
    pub dict_type: DictType,
    pub items: Vec<(String, i32)>,
}

impl DictSet {
    /// Whether this is the word list called `name` that holds each of
    /// `words` once.
    pub open spec fn is_word_list_of(self, name: Seq<char>, words: Seq<String>) -> bool {
        &&& self.name@ == name
        &&& self.dict_type == DictType::WordList
        &&& dict_keys(self.items@).no_duplicates()
        &&& dict_keys(self.items@).to_set() == word_set(words)
    }
}

/// The words of a word list, in order.
pub open spec fn dict_keys(items: Seq<(String, i32)>) -> Seq<Seq<char>> {
    items.map_values(|p: (String, i32)| p.0@)
}

/// A whole custom dictionary as the service sends and receives it.
#[derive(Debug)]
pub struct CustomDictionary {
    pub domain_name: String,
    pub np_set: Option<DictSet>,
    pub cp_set: Option<DictSet>,
    pub cp_caret_set: Option<DictSet>,
    pub vv_set: Option<DictSet>,
    pub va_set: Option<DictSet>,
}

/// The word list named `domain-name` that holds each word of `dict_set`
/// once, with count 1.
pub fn build_dict_set(domain: &str, name: &str, dict_set: &Vec<String>) -> (r: DictSet)
    ensures
        r.name@ == domain@ + "-"@ + name@,
        r.dict_type == DictType::WordList,
        dict_keys(r.items@).no_duplicates(),
        dict_keys(r.items@).to_set() == word_set(dict_set@),
        forall|i: int| 0 <= i < r.items@.len() ==> (#[trigger] r.items@[i]).1 == 1,
{
    let mut full = copy_str(domain);
    full.append("-");
    full.append(name);
    let copy = dict_set.clone();
    assert(copy@ =~= dict_set@);
    let words = dedup_words(copy);
    let mut items: Vec<(String, i32)> = Vec::new();
    let mut i: usize = 0;
    while i < words.len()
        invariant
            i <= words.len(),
            dict_keys(items@) == strs(words@.take(i as int)),
            forall|k: int| 0 <= k < items@.len() ==> (#[trigger] items@[k]).1 == 1,
        decreases words.len() - i,
    {
        let ghost before = items@;
        let w = words[i].clone();
        items.push((w, 1));
        assert(items@ =~= before.push((w, 1)));
        assert(dict_keys(before.push((w, 1))) =~= dict_keys(before).push(w@));
        assert(strs(words@.take(i + 1)) =~= strs(words@.take(i as int)).push(w@));
        i += 1;
    }
    assert(words@.take(words@.len() as int) =~= words@);
    DictSet { name: full, dict_type: DictType::WordList, items }
}

/// The words of a word list, each once.
pub fn pb_map_to_set(ds: &DictSet) -> (r: Vec<String>)
    ensures
        is_word_set(r@),
        word_set(r@) == dict_keys(ds.items@).to_set(),
{
    let mut keys: Vec<String> = Vec::new();
    let mut i: usize = 0;
    while i < ds.items.len()
        invariant
            i <= ds.items.len(),
            strs(keys@) == dict_keys(ds.items@.take(i as int)),
        decreases ds.items.len() - i,
    {
        let ghost before = keys@;
        let w = ds.items[i].0.clone();
        keys.push(w);
        assert(strs(keys@) =~= strs(before).push(w@));
        assert(dict_keys(ds.items@.take(i + 1)) =~= dict_keys(ds.items@.take(i as int)).push(w@));
        i += 1;
    }
    assert(ds.items@.take(ds.items@.len() as int) =~= ds.items@);
    dedup_words(keys)
}

/// Said when a dictionary is asked to reach the service before it was
/// told where the service is.
pub const NO_CONNECTION_MESSAGE: &'static str =
    "Connection information not set. Use set_connection() first.";

/// A custom dictionary held locally: its domain, which names it, and five
/// word sets. The service is reached at `host`:`port` with `apikey`.
#[derive(Debug)]
pub struct CustomDict {
    pub domain: String,
    pub cp_set: Vec<String>,
    pub np_set: Vec<String>,
    pub cp_caret_set: Vec<String>,
    pub vv_set: Vec<String>,
    pub va_set: Vec<String>,
    pub apikey: String,
    pub host: String,
    pub port: i32,
}

impl CustomDictionary {
    /// Whether this is what `update` sends for `d`: each of its five sets
    /// as a word list named after the domain.
    pub open spec fn holds_sets_of(self, d: CustomDict) -> bool {
        &&& self.domain_name@ == d.domain@
        &&& self.np_set matches Some(ds) && ds.is_word_list_of(d.domain@ + "-"@ + "np-set"@, d.np_set@)
        &&& self.cp_set matches Some(ds) && ds.is_word_list_of(d.domain@ + "-"@ + "cp-set"@, d.cp_set@)
        &&& self.cp_caret_set matches Some(ds) && ds.is_word_list_of(d.domain@ + "-"@ + "cp-caret-set"@, d.cp_caret_set@)
        &&& self.vv_set matches Some(ds) && ds.is_word_list_of(d.domain@ + "-"@ + "vv-set"@, d.vv_set@)
        &&& self.va_set matches Some(ds) && ds.is_word_list_of(d.domain@ + "-"@ + "va-set"@, d.va_set@)
    }
}

impl CustomDict {
    /// The domain is named and no set holds a word twice.
    pub open spec fn wf(self) -> bool {
        &&& self.domain@.len() > 0
        &&& is_word_set(self.np_set@)
        &&& is_word_set(self.cp_set@)
        &&& is_word_set(self.cp_caret_set@)
        &&& is_word_set(self.vv_set@)
        &&& is_word_set(self.va_set@)
    }

    /// Whether the service's key and host have been given.
    pub open spec fn has_connection(self) -> bool {
        self.apikey@.len() > 0 && self.host@.len() > 0
    }

    /// Whether `self` is `before` with the word lists of `msg` read in:
    /// each list that `msg` holds replaces its set, the others stay.
    pub open spec fn loaded_from(self, before: CustomDict, msg: CustomDictionary) -> bool {
        &&& self.domain == before.domain
        &&& self.apikey == before.apikey
        &&& self.host == before.host
        &&& self.port == before.port
        &&& match msg.np_set {
            Some(ds) => is_word_set(self.np_set@) && word_set(self.np_set@) == dict_keys(ds.items@).to_set(),
            None => self.np_set == before.np_set,
        }
        &&& match msg.cp_set {
            Some(ds) => is_word_set(self.cp_set@) && word_set(self.cp_set@) == dict_keys(ds.items@).to_set(),
            None => self.cp_set == before.cp_set,
        }
        &&& match msg.cp_caret_set {
            Some(ds) => is_word_set(self.cp_caret_set@) && word_set(self.cp_caret_set@) == dict_keys(ds.items@).to_set(),
            None => self.cp_caret_set == before.cp_caret_set,
        }
        &&& match msg.vv_set {
            Some(ds) => is_word_set(self.vv_set@) && word_set(self.vv_set@) == dict_keys(ds.items@).to_set(),
            None => self.vv_set == before.vv_set,
        }
        &&& match msg.va_set {
            Some(ds) => is_word_set(self.va_set@) && word_set(self.va_set@) == dict_keys(ds.items@).to_set(),
            None => self.va_set == before.va_set,
        }
    }

    /// An empty dictionary for `domain`, with no connection yet. Fails
    /// with `InvalidCustomDictName` exactly when `domain` is empty.
    pub fn new(domain: &str) -> (r: Result<CustomDict, BareunError>)
        ensures
            domain@.len() == 0 <==> r is Err,
            r matches Err(e) ==> (e matches BareunError::InvalidCustomDictName(n) && n@ == domain@),
            r matches Ok(d) ==> (d.wf() && d.domain@ == domain@ && d.np_set@.len() == 0
                && d.cp_set@.len() == 0 && d.cp_caret_set@.len() == 0 && d.vv_set@.len() == 0
                && d.va_set@.len() == 0 && d.apikey@.len() == 0 && d.host@.len() == 0 && d.port
                == 0),
    {
        proof {
            reveal_strlit("");
        }
        CustomDict::with_connection(domain, "", "", 0)
    }

    /// An empty dictionary for `domain`, to be kept at `host`:`port` with
    /// `apikey`. Fails with `InvalidCustomDictName` exactly when `domain`
    /// is empty.
    pub fn with_connection(domain: &str, apikey: &str, host: &str, port: i32) -> (r: Result<
        CustomDict,
        BareunError,
    >)
        ensures
            domain@.len() == 0 <==> r is Err,
            r matches Err(e) ==> (e matches BareunError::InvalidCustomDictName(n) && n@ == domain@),
            r matches Ok(d) ==> (d.wf() && d.domain@ == domain@ && d.np_set@.len() == 0
                && d.cp_set@.len() == 0 && d.cp_caret_set@.len() == 0 && d.vv_set@.len() == 0
                && d.va_set@.len() == 0 && d.apikey@ == apikey@ && d.host@ == host@ && d.port
                == port),
    {
        if domain.is_empty() {
            return Err(BareunError::InvalidCustomDictName(copy_str(domain)));
        }
        let d = CustomDict {
            domain: copy_str(domain),
            cp_set: Vec::new(),
            np_set: Vec::new(),
            cp_caret_set: Vec::new(),
            vv_set: Vec::new(),
            va_set: Vec::new(),
            apikey: copy_str(apikey),
            host: copy_str(host),
            port,
        };
        assert(strs(d.np_set@) =~= Seq::empty());
        Ok(d)
    }

    /// Says where the service is and with which key to reach it.
    pub fn set_connection(&mut self, apikey: &str, host: &str, port: i32)
        ensures
            final(self).apikey@ == apikey@,
            final(self).host@ == host@,
            final(self).port == port,
            final(self).domain == old(self).domain,
            final(self).np_set == old(self).np_set,
            final(self).cp_set == old(self).cp_set,
            final(self).cp_caret_set == old(self).cp_caret_set,
            final(self).vv_set == old(self).vv_set,
            final(self).va_set == old(self).va_set,
    {
        self.apikey = copy_str(apikey);
        self.host = copy_str(host);
        self.port = port;
    }

    /// Replaces the proper nouns with the words of a dictionary file, given as
    /// its lines.
    pub fn read_np_set_from_file(&mut self, lines: &Vec<String>)
        ensures
            *final(self) == (CustomDict { np_set: final(self).np_set, ..*old(self) }),
            is_word_set(final(self).np_set@),
            word_set(final(self).np_set@) == dict_words(strs(lines@)),
    {
        self.np_set = parse_dict_lines(lines);
    }

    /// Replaces the proper nouns with the words of `dict_set`, each kept once.
    pub fn copy_np_set(&mut self, dict_set: Vec<String>)
        ensures
            *final(self) == (CustomDict { np_set: final(self).np_set, ..*old(self) }),
            is_word_set(final(self).np_set@),
            word_set(final(self).np_set@) == word_set(dict_set@),
    {
        self.np_set = dedup_words(dict_set);
    }

    /// Replaces the compound nouns with the words of a dictionary file, given as
    /// its lines.
    pub fn read_cp_set_from_file(&mut self, lines: &Vec<String>)
        ensures
            *final(self) == (CustomDict { cp_set: final(self).cp_set, ..*old(self) }),
            is_word_set(final(self).cp_set@),
            word_set(final(self).cp_set@) == dict_words(strs(lines@)),
    {
        self.cp_set = parse_dict_lines(lines);
    }

    /// Replaces the compound nouns with the words of `dict_set`, each kept once.
    pub fn copy_cp_set(&mut self, dict_set: Vec<String>)
        ensures
            *final(self) == (CustomDict { cp_set: final(self).cp_set, ..*old(self) }),
            is_word_set(final(self).cp_set@),
            word_set(final(self).cp_set@) == word_set(dict_set@),
    {
        self.cp_set = dedup_words(dict_set);
    }

    /// Replaces the compound nouns with their split points marked by `^` with the words of a dictionary file, given as
    /// its lines.
    pub fn read_cp_caret_set_from_file(&mut self, lines: &Vec<String>)
        ensures
            *final(self) == (CustomDict { cp_caret_set: final(self).cp_caret_set, ..*old(self) }),
            is_word_set(final(self).cp_caret_set@),
            word_set(final(self).cp_caret_set@) == dict_words(strs(lines@)),
    {
        self.cp_caret_set = parse_dict_lines(lines);
    }

    /// Replaces the compound nouns with their split points marked by `^` with the words of `dict_set`, each kept once.
    pub fn copy_cp_caret_set(&mut self, dict_set: Vec<String>)
        ensures
            *final(self) == (CustomDict { cp_caret_set: final(self).cp_caret_set, ..*old(self) }),
            is_word_set(final(self).cp_caret_set@),
            word_set(final(self).cp_caret_set@) == word_set(dict_set@),
    {
        self.cp_caret_set = dedup_words(dict_set);
    }

    /// Replaces the verbs with the words of a dictionary file, given as
    /// its lines.
    pub fn read_vv_set_from_file(&mut self, lines: &Vec<String>)
        ensures
            *final(self) == (CustomDict { vv_set: final(self).vv_set, ..*old(self) }),
            is_word_set(final(self).vv_set@),
            word_set(final(self).vv_set@) == dict_words(strs(lines@)),
    {
        self.vv_set = parse_dict_lines(lines);
    }

    /// Replaces the verbs with the words of `dict_set`, each kept once.
    pub fn copy_vv_set(&mut self, dict_set: Vec<String>)
        ensures
            *final(self) == (CustomDict { vv_set: final(self).vv_set, ..*old(self) }),
            is_word_set(final(self).vv_set@),
            word_set(final(self).vv_set@) == word_set(dict_set@),
    {
        self.vv_set = dedup_words(dict_set);
    }

    /// Replaces the adjectives with the words of a dictionary file, given as
    /// its lines.
    pub fn read_va_set_from_file(&mut self, lines: &Vec<String>)
        ensures
            *final(self) == (CustomDict { va_set: final(self).va_set, ..*old(self) }),
            is_word_set(final(self).va_set@),
            word_set(final(self).va_set@) == dict_words(strs(lines@)),
    {
        self.va_set = parse_dict_lines(lines);
    }

    /// Replaces the adjectives with the words of `dict_set`, each kept once.
    pub fn copy_va_set(&mut self, dict_set: Vec<String>)
        ensures
            *final(self) == (CustomDict { va_set: final(self).va_set, ..*old(self) }),
            is_word_set(final(self).va_set@),
            word_set(final(self).va_set@) == word_set(dict_set@),
    {
        self.va_set = dedup_words(dict_set);
    }

    /// Fails with `InvalidArgument` exactly when the key or the host has
    /// not been given.
    pub fn check_connection(&self) -> (r: Result<(), BareunError>)
        ensures
            r is Ok <==> self.has_connection(),
            r matches Err(e) ==> (e matches BareunError::InvalidArgument { message: m } && m@
                == NO_CONNECTION_MESSAGE@),
    {
        if self.apikey.as_str().is_empty() || self.host.as_str().is_empty() {
            Err(BareunError::InvalidArgument { message: copy_str(NO_CONNECTION_MESSAGE) })
        } else {
            Ok(())
        }
    }

    /// What `update` sends: all five sets, which replace those the service
    /// keeps for the domain. Fails as `check_connection` does.
    pub fn update_request(&self) -> (r: Result<CustomDictionary, BareunError>)
        ensures
            r is Ok <==> self.has_connection(),
            r matches Err(e) ==> (e matches BareunError::InvalidArgument { message: m } && m@
                == NO_CONNECTION_MESSAGE@),
            r matches Ok(msg) ==> msg.holds_sets_of(*self),
    {
        match self.check_connection() {
            Err(e) => Err(e),
            Ok(()) => {
        let np_set = build_dict_set(self.domain.as_str(), "np-set", &self.np_set);
        let cp_set = build_dict_set(self.domain.as_str(), "cp-set", &self.cp_set);
        let cp_caret_set = build_dict_set(self.domain.as_str(), "cp-caret-set", &self.cp_caret_set);
        let vv_set = build_dict_set(self.domain.as_str(), "vv-set", &self.vv_set);
        let va_set = build_dict_set(self.domain.as_str(), "va-set", &self.va_set);
                Ok(
                    CustomDictionary {
                        domain_name: self.domain.clone(),
                        np_set: Some(np_set),
                        cp_set: Some(cp_set),
                        cp_caret_set: Some(cp_caret_set),
                        vv_set: Some(vv_set),
                        va_set: Some(va_set),
                    },
                )
            },
        }
    }

    /// Whether the service confirmed an update by naming this domain.
    pub fn is_update_confirmed(&self, updated_domain_name: &String) -> (r: bool)
        ensures
            r == (updated_domain_name@ == self.domain@),
    {
        *updated_domain_name == self.domain
    }

    /// Reads in what the service holds: each word list in `msg` replaces
    /// its set; a set that `msg` lacks stays as it was.
    pub fn load_from(&mut self, msg: &CustomDictionary)
        ensures
            final(self).loaded_from(*old(self), *msg),
    {
        match &msg.np_set {
            Some(ds) => {
                self.np_set = pb_map_to_set(ds);
            },
            None => {},
        }
        match &msg.cp_set {
            Some(ds) => {
                self.cp_set = pb_map_to_set(ds);
            },
            None => {},
        }
        match &msg.cp_caret_set {
            Some(ds) => {
                self.cp_caret_set = pb_map_to_set(ds);
            },
            None => {},
        }
        match &msg.vv_set {
            Some(ds) => {
                self.vv_set = pb_map_to_set(ds);
            },
            None => {},
        }
        match &msg.va_set {
            Some(ds) => {
                self.va_set = pb_map_to_set(ds);
            },
            None => {},
        }
    }

    /// The domains that `clear` asks the service to delete: this one.
    /// Fails as `check_connection` does. Nothing is changed here: the sets
    /// are emptied by `clear_sets` once the service has deleted the domain.
    pub fn clear_request(&self) -> (r: Result<Vec<String>, BareunError>)
        ensures
            r is Ok <==> self.has_connection(),
            r matches Err(e) ==> (e matches BareunError::InvalidArgument { message: m } && m@
                == NO_CONNECTION_MESSAGE@),
            r matches Ok(v) ==> (v@.len() == 1 && v@[0]@ == self.domain@),
    {
        match self.check_connection() {
            Err(e) => Err(e),
            Ok(()) => {
                let mut v: Vec<String> = Vec::new();
                v.push(self.domain.clone());
                Ok(v)
            },
        }
    }

    /// Empties the five sets; the domain and the connection stay.
    pub fn clear_sets(&mut self)
        ensures
            final(self).domain == old(self).domain,
            final(self).apikey == old(self).apikey,
            final(self).host == old(self).host,
            final(self).port == old(self).port,
            final(self).np_set@.len() == 0,
            final(self).cp_set@.len() == 0,
            final(self).cp_caret_set@.len() == 0,
            final(self).vv_set@.len() == 0,
            final(self).va_set@.len() == 0,
            final(self).wf() <==> old(self).domain@.len() > 0,
    {
        self.np_set.clear();
        self.cp_set.clear();
        self.cp_caret_set.clear();
        self.vv_set.clear();
        self.va_set.clear();
        assert(strs(self.np_set@) =~= Seq::empty());
        assert(strs(self.cp_set@) =~= Seq::empty());
        assert(strs(self.cp_caret_set@) =~= Seq::empty());
        assert(strs(self.vv_set@) =~= Seq::empty());
        assert(strs(self.va_set@) =~= Seq::empty());
    }
}

/// Writing a dictionary with `update` and reading back what was written
/// with `load` gives back the five sets.
pub proof fn lemma_update_then_load(
    written: CustomDict,
    msg: CustomDictionary,
    before: CustomDict,
    after: CustomDict,
)
    requires
        msg.holds_sets_of(written),
        after.loaded_from(before, msg),
    ensures
        word_set(after.np_set@) == word_set(written.np_set@),
        word_set(after.cp_set@) == word_set(written.cp_set@),
        word_set(after.cp_caret_set@) == word_set(written.cp_caret_set@),
        word_set(after.vv_set@) == word_set(written.vv_set@),
        word_set(after.va_set@) == word_set(written.va_set@),
{
}

} // verus!
