//! The post record consumed by the download pipeline, and the names derived from it.
use vstd::prelude::*;
use vstd::utf8::encode_utf8;

verus! {

/// Content classification of a post. A grouped archive holds one sub-directory per rating.
#[derive(Clone, Copy, Debug, PartialEq, Eq, Structural)]
pub enum Rating {
    Safe,
    Questionable,
    Explicit,
    Unknown,
}

/// The label of a rating, as used for archive sub-directories.
pub open spec fn rating_label(r: Rating) -> Seq<char> {
    match r {
        Rating::Safe => seq!['S', 'a', 'f', 'e'],
        Rating::Questionable => seq!['Q', 'u', 'e', 's', 't', 'i', 'o', 'n', 'a', 'b', 'l', 'e'],
        Rating::Explicit => seq!['E', 'x', 'p', 'l', 'i', 'c', 'i', 't'],
        Rating::Unknown => seq!['U', 'n', 'k', 'n', 'o', 'w', 'n'],
    }
}

impl Rating {
    /// The rating's label: `Safe`, `Questionable`, `Explicit` or `Unknown`.
    pub fn to_string(&self) -> (r: String)
        ensures
            r@ == rating_label(*self),
    {
        let s: &str = match self {
            Rating::Safe => "Safe",
            Rating::Questionable => "Questionable",
            Rating::Explicit => "Explicit",
            Rating::Unknown => "Unknown",
        };
        proof {
            reveal_strlit("Safe");
            reveal_strlit("Questionable");
            reveal_strlit("Explicit");
            reveal_strlit("Unknown");
        }
        String::from_str(s)
    }
}

/// Which field of a post names its file on disk.
#[derive(Clone, Copy, Debug, PartialEq, Eq, Structural)]
pub enum NameType {
    /// The numeric identifier.
    ID,
    /// The content hash.
    MD5,
}

impl NameType {
    pub open spec fn spec_other(self) -> NameType {
        match self {
            NameType::ID => NameType::MD5,
            NameType::MD5 => NameType::ID,
        }
    }

    /// The other naming convention.
    #[verifier::when_used_as_spec(spec_other)]
    pub fn other(self) -> (r: NameType)
        ensures
            r == self.spec_other(),
    {
        match self {
            NameType::ID => NameType::MD5,
            NameType::MD5 => NameType::ID,
        }
    }
}

/// The kind of a tag, which decides whether it belongs in a caption.
#[derive(Clone, Copy, Debug, PartialEq, Eq, Structural)]
pub enum TagType {
    Author,
    Copyright,
    Character,
    Species,
    General,
    Lore,
    Meta,
}

/// One tag of a post.
#[derive(Debug)]
pub struct Tag {
    pub tag: String,
    pub tag_type: TagType,
}

impl Tag {
    pub open spec fn spec_is_prompt_tag(&self) -> bool {
        match self.tag_type {
            TagType::Character | TagType::Species | TagType::General => true,
            TagType::Author | TagType::Copyright | TagType::Lore | TagType::Meta => false,
        }
    }

    pub fn new(tag: &str, tag_type: TagType) -> (r: Tag)
        ensures
            r.tag@ == tag@,
            r.tag_type == tag_type,
    {
        Tag { tag: String::from_str(tag), tag_type }
    }

    /// Whether the tag describes the picture itself (character, species, general), so
    /// that it is fit for a caption.
    #[verifier::when_used_as_spec(spec_is_prompt_tag)]
    pub fn is_prompt_tag(&self) -> (r: bool)
        ensures
            r == self.spec_is_prompt_tag(),
    {
        match self.tag_type {
            TagType::Character | TagType::Species | TagType::General => true,
            TagType::Author | TagType::Copyright | TagType::Lore | TagType::Meta => false,
        }
    }

    /// The tag's text.
    pub fn tag(&self) -> (r: String)
        ensures
            r@ == self.tag@,
    {
        String::from_str(self.tag.as_str())
    }
}

/// The decimal digit `d` as a character.
pub open spec fn digit_char(d: int) -> char {
    seq!['0', '1', '2', '3', '4', '5', '6', '7', '8', '9'][d]
}

/// The decimal representation of `n`, without leading zeros.
pub open spec fn decimal(n: nat) -> Seq<char>
    decreases n,
{
    if n < 10 {
        seq![digit_char(n as int)]
    } else {
        decimal(n / 10) + seq![digit_char((n % 10) as int)]
    }
}

fn digit_str(d: u64) -> (r: &'static str)
    requires
        d < 10,
    ensures
        r@ == seq![digit_char(d as int)],
{
    proof {
        reveal_strlit("0");
        reveal_strlit("1");
        reveal_strlit("2");
        reveal_strlit("3");
        reveal_strlit("4");
        reveal_strlit("5");
        reveal_strlit("6");
        reveal_strlit("7");
        reveal_strlit("8");
        reveal_strlit("9");
    }
    match d {
        0 => "0",
        1 => "1",
        2 => "2",
        3 => "3",
        4 => "4",
        5 => "5",
        6 => "6",
        7 => "7",
        8 => "8",
        _ => "9",
    }
}

/// Writes `n` in decimal.
pub fn decimal_string(n: u64) -> (r: String)
    ensures
        r@ == decimal(n as nat),
{
    let mut out = String::from_str(digit_str(n % 10));
    let mut rest: u64 = n / 10;
    while rest > 0
        invariant
            rest > 0 ==> decimal(n as nat) == decimal(rest as nat) + out@,
            rest == 0 ==> decimal(n as nat) == out@,
        decreases rest,
    {
        let ghost before = out@;
        let prefix = String::from_str(digit_str(rest % 10));
        out = prefix.concat(out.as_str());
        assert(decimal(rest as nat) + before =~= (if rest / 10 > 0 {
            decimal((rest / 10) as nat)
        } else {
            Seq::empty()
        }) + out@);
        rest = rest / 10;
    }
    out
}

/// A byte string with every underscore turned into a space.
pub open spec fn spaced(b: Seq<u8>) -> Seq<u8> {
    b.map_values(|x: u8| if x == 0x5f { 0x20u8 } else { x })
}

/// The separator between the tags of a caption: a comma and a space.
pub open spec fn caption_separator() -> Seq<u8> {
    seq![0x2cu8, 0x20u8]
}

/// The UTF-8 text of each caption-worthy tag, in order.
pub open spec fn prompt_names(tags: Seq<Tag>) -> Seq<Seq<u8>>
    decreases tags.len(),
{
    if tags.len() == 0 {
        Seq::empty()
    } else {
        let rest = prompt_names(tags.drop_last());
        if tags.last().spec_is_prompt_tag() {
            rest.push(encode_utf8(tags.last().tag@))
        } else {
            rest
        }
    }
}

/// The parts joined with `sep` between each two.
pub open spec fn joined(parts: Seq<Seq<u8>>, sep: Seq<u8>) -> Seq<u8>
    decreases parts.len(),
{
    if parts.len() == 0 {
        Seq::empty()
    } else if parts.len() == 1 {
        parts[0]
    } else {
        joined(parts.drop_last(), sep) + sep + parts.last()
    }
}

/// The caption of a post with these tags: the caption-worthy tags joined by `", "`,
/// with underscores turned into spaces.
pub open spec fn caption_of(tags: Seq<Tag>) -> Seq<u8> {
    spaced(joined(prompt_names(tags), caption_separator()))
}

proof fn lemma_spaced_concat(a: Seq<u8>, b: Seq<u8>)
    ensures
        spaced(a + b) == spaced(a) + spaced(b),
{
    assert(spaced(a + b) =~= spaced(a) + spaced(b));
}

/// A remote item, as an extractor resolved it.
#[derive(Debug)]
pub struct Post {
    pub id: u64,
    /// Hex digest of the content; the authority for integrity checks.
    pub md5: String,
    pub url: String,
    pub extension: String,
    pub tags: Vec<Tag>,
    pub rating: Rating,
}

impl Post {
    /// The file name of the post without its extension.
    pub open spec fn spec_name(&self, name_type: NameType) -> Seq<char> {
        match name_type {
            NameType::ID => decimal(self.id as nat),
            NameType::MD5 => self.md5@,
        }
    }

    /// The file name of the post: its name, a dot, and its extension.
    pub open spec fn spec_file_name(&self, name_type: NameType) -> Seq<char> {
        self.spec_name(name_type) + seq!['.'] + self.extension@
    }

    pub fn name(&self, name_type: NameType) -> (r: String)
        ensures
            r@ == self.spec_name(name_type),
    {
        match name_type {
            NameType::ID => decimal_string(self.id),
            NameType::MD5 => String::from_str(self.md5.as_str()),
        }
    }

    pub fn file_name(&self, name_type: NameType) -> (r: String)
        ensures
            r@ == self.spec_file_name(name_type),
    {
        proof {
            reveal_strlit(".");
        }
        let base = self.name(name_type);
        let dotted = base.concat(".");
        dotted.concat(self.extension.as_str())
    }

    /// The caption of the post, as the bytes of its sidecar text.
    pub fn caption_bytes(&self) -> (r: Vec<u8>)
        ensures
            r@ == caption_of(self.tags@),
    {
        let mut out: Vec<u8> = Vec::new();
        let mut count: usize = 0;
        let mut i: usize = 0;
        while i < self.tags.len()
            invariant
                i <= self.tags@.len(),
                out@ == caption_of(self.tags@.subrange(0, i as int)),
                count as nat == prompt_names(self.tags@.subrange(0, i as int)).len(),
                count <= i,
            decreases self.tags@.len() - i,
        {
            let ghost prev = self.tags@.subrange(0, i as int);
            let ghost next = self.tags@.subrange(0, i + 1);
            assert(next.drop_last() =~= prev);
            assert(next.last() == self.tags@[i as int]);
            let t = &self.tags[i];
            if t.is_prompt_tag() {
                let ghost out_before = out@;
                let ghost parts = prompt_names(prev);
                if count > 0 {
                    out.push(0x2c);
                    out.push(0x20);
                }
                let ghost out_sep = out@;
                let bytes = t.tag.as_str().as_bytes();
                let mut j: usize = 0;
                while j < bytes.len()
                    invariant
                        j <= bytes@.len(),
                        out@ == out_sep + spaced(bytes@.subrange(0, j as int)),
                    decreases bytes@.len() - j,
                {
                    let b = bytes[j];
                    if b == 0x5f {
                        out.push(0x20);
                    } else {
                        out.push(b);
                    }
                    assert(bytes@.subrange(0, j + 1) =~= bytes@.subrange(0, j as int).push(b));
                    assert(spaced(bytes@.subrange(0, j + 1)) =~= spaced(
                        bytes@.subrange(0, j as int),
                    ).push(if b == 0x5f { 0x20u8 } else { b }));
                    j = j + 1;
                }
                assert(bytes@.subrange(0, bytes@.len() as int) =~= bytes@);
                let ghost tb = encode_utf8(t.tag@);
                assert(prompt_names(next) == parts.push(tb));
                proof {
                    if count == 0 {
                        assert(joined(parts.push(tb), caption_separator()) == tb);
                    } else {
                        assert(parts.push(tb).drop_last() =~= parts);
                        lemma_spaced_concat(
                            joined(parts, caption_separator()) + caption_separator(),
                            tb,
                        );
                        lemma_spaced_concat(
                            joined(parts, caption_separator()),
                            caption_separator(),
                        );
                        assert(spaced(caption_separator()) =~= caption_separator());
                    }
                }
                count = count + 1;
            }
            i = i + 1;
        }
        assert(self.tags@.subrange(0, self.tags@.len() as int) =~= self.tags@);
        out
    }
}

} // verus!
