//! The naming convention: how the names of an object's accessors are made
//! from the name of a field.

use convert_case::{Case, Casing};
use vstd::prelude::*;
use vstd::utf8::is_ascii_chars;

verus! {

/// A way of writing a name that is made of several words.
#[derive(Clone, Copy, Debug, PartialEq, Eq, Structural)]
pub enum CaseStyle {
    /// Words separated by spaces, each with a capital first letter.
    Title,
    /// Lower-case words separated by underscores.
    Snake,
    /// Words run together, each but the first with a capital first letter.
    Camel,
}

/// The text that `convert_case` makes of `text` in the style `style`.
pub uninterp spec fn case_text(text: Seq<char>, style: CaseStyle) -> Seq<char>;

/// Calls `convert_case::Casing::to_case` on `text`, with the `Case` of the
/// same name as `style`. Nothing is proved of the call. What is claimed: the
/// result depends on the text and the style alone, so [`case_text`] names
/// it. Text that is not ASCII is left out: the conversion counts characters
/// where it finds the words and uses the counts as byte offsets where it
/// splits them, and so may panic on such text.
#[verifier::external_body]
fn to_case(text: &str, style: CaseStyle) -> (r: String)
    requires
        is_ascii_chars(text@),
    ensures
        r@ == case_text(text@, style),
{
    let case = match style {
        CaseStyle::Title => Case::Title,
        CaseStyle::Snake => Case::Snake,
        CaseStyle::Camel => Case::Camel,
    };
    text.to_case(case)
}

/// Whether a character can stand in an identifier: an ASCII letter, an ASCII
/// digit or the underscore.
pub open spec fn is_identifier_char(c: char) -> bool {
    ||| 'a' <= c <= 'z'
    ||| 'A' <= c <= 'Z'
    ||| '0' <= c <= '9'
    ||| c == '_'
}

/// [`is_identifier_char`] as a function value.
pub open spec fn identifier_char_fn() -> spec_fn(char) -> bool {
    |c: char| is_identifier_char(c)
}

/// Whether a text holds nothing but letters, digits and underscores.
pub open spec fn is_identifier_text(text: Seq<char>) -> bool {
    forall|i: int| 0 <= i < text.len() ==> is_identifier_char(#[trigger] text[i])
}

/// What is left of a text when every character that cannot stand in an
/// identifier is taken out: the letters, digits and underscores, in their
/// order.
pub open spec fn identifier_chars(text: Seq<char>) -> Seq<char> {
    text.filter(identifier_char_fn())
}

/// What is left of a text holds nothing but letters, digits and
/// underscores.
pub proof fn lemma_identifier_chars_are_identifier_text(text: Seq<char>)
    ensures
        is_identifier_text(identifier_chars(text)),
{
    let kept = identifier_chars(text);
    assert forall|i: int| 0 <= i < kept.len() implies is_identifier_char(#[trigger] kept[i]) by {
        text.lemma_filter_pred(identifier_char_fn(), i);
    }
}

/// A text of letters, digits and underscores is left as it is.
pub proof fn lemma_identifier_text_is_kept(text: Seq<char>)
    requires
        is_identifier_text(text),
    ensures
        identifier_chars(text) == text,
    decreases text.len(),
{
    if text.len() == 0 {
        reveal(Seq::filter);
    } else {
        let shorter = text.drop_last();
        assert forall|i: int| 0 <= i < shorter.len() implies is_identifier_char(
            #[trigger] shorter[i],
        ) by {
            assert(shorter[i] == text[i]);
        }
        lemma_identifier_text_is_kept(shorter);
        shorter.lemma_filter_push(text.last(), identifier_char_fn());
        assert(shorter.push(text.last()) =~= text);
        assert(is_identifier_char(text[text.len() - 1]));
    }
}

/// Takes out of a text every character that cannot stand in an identifier.
pub fn identifier_part(text: &str) -> (r: String)
    ensures
        r@ == identifier_chars(text@),
        is_identifier_text(r@),
{
    let n = text.unicode_len();
    let mut kept = String::new();
    let mut i: usize = 0;
    proof {
        reveal(Seq::filter);
        assert(text@.take(0).filter(identifier_char_fn()) =~= Seq::<char>::empty());
    }
    while i < n
        invariant
            n == text@.len(),
            i <= n,
            kept@ == identifier_chars(text@.take(i as int)),
        decreases n - i,
    {
        let c = text.get_char(i);
        proof {
            text@.take(i as int).lemma_filter_push(c, identifier_char_fn());
            assert(text@.take(i as int).push(c) =~= text@.take(i + 1));
        }
        if ('a' <= c && c <= 'z') || ('A' <= c && c <= 'Z') || ('0' <= c && c <= '9') || c == '_' {
            let one = text.substring_char(i, i + 1);
            assert(one@ =~= seq![c]);
            assert(kept@ + one@ =~= kept@.push(c));
            kept.append(one);
        }
        i += 1;
    }
    proof {
        assert(text@.take(n as int) =~= text@);
        lemma_identifier_chars_are_identifier_text(text@);
    }
    kept
}

/// How one name is made from the name of a field: the field's name in some
/// style, between a prefix and a suffix.
#[derive(Debug, Clone, PartialEq, Eq)]
pub struct NamePattern {
    /// What stands before the converted name.
    pub prefix: String,
    /// The style that the field's name is converted to.
    pub style: CaseStyle,
    /// What stands after the converted name.
    pub suffix: String,
}

/// How the two spellings of an accessor's name are made.
#[derive(Debug, Clone, PartialEq, Eq)]
pub struct AccessorPattern {
    /// The name on the C++ side.
    pub cpp: NamePattern,
    /// The name on the Rust side.
    pub rust: NamePattern,
}

/// The naming convention of an extraction.
#[derive(Debug, Clone, PartialEq, Eq)]
pub struct NamingRules {
    /// What is appended to the struct's name to name the struct that holds
    /// the object's data.
    pub storage_suffix: String,
    /// The names of a property's getter.
    pub getter: AccessorPattern,
    /// The names of a property's setter.
    pub setter: AccessorPattern,
    /// The names of a property's change notification.
    pub notify: AccessorPattern,
}

/// The mathematical value of a [`NamePattern`].
pub ghost struct NamePatternView {
    pub prefix: Seq<char>,
    pub style: CaseStyle,
    pub suffix: Seq<char>,
}

/// The mathematical value of an [`AccessorPattern`].
pub ghost struct AccessorPatternView {
    pub cpp: NamePatternView,
    pub rust: NamePatternView,
}

/// The mathematical value of [`NamingRules`].
pub ghost struct NamingRulesView {
    pub storage_suffix: Seq<char>,
    pub getter: AccessorPatternView,
    pub setter: AccessorPatternView,
    pub notify: AccessorPatternView,
}

impl View for NamePattern {
    type V = NamePatternView;

    open spec fn view(&self) -> NamePatternView {
        NamePatternView { prefix: self.prefix@, style: self.style, suffix: self.suffix@ }
    }
}

impl View for AccessorPattern {
    type V = AccessorPatternView;

    open spec fn view(&self) -> AccessorPatternView {
        AccessorPatternView { cpp: self.cpp@, rust: self.rust@ }
    }
}

impl View for NamingRules {
    type V = NamingRulesView;

    open spec fn view(&self) -> NamingRulesView {
        NamingRulesView {
            storage_suffix: self.storage_suffix@,
            getter: self.getter@,
            setter: self.setter@,
            notify: self.notify@,
        }
    }
}

/// The name that a pattern makes around a name that is already converted:
/// the letters, digits and underscores of the prefix, the converted name
/// and the suffix, in this order. What separates the words of the converted
/// name, such as the spaces of [`CaseStyle::Title`], is not part of it.
pub open spec fn compose_name(pattern: NamePatternView, cased: Seq<char>) -> Seq<char> {
    identifier_chars(pattern.prefix + cased + pattern.suffix)
}

/// Around a prefix and a suffix of letters, digits and underscores, the
/// name that a pattern makes is the prefix, what is left of the converted
/// name, and the suffix.
pub proof fn lemma_compose_name_keeps_affixes(pattern: NamePatternView, cased: Seq<char>)
    requires
        is_identifier_text(pattern.prefix),
        is_identifier_text(pattern.suffix),
    ensures
        compose_name(pattern, cased) == pattern.prefix + identifier_chars(cased) + pattern.suffix,
{
    let f = identifier_char_fn();
    Seq::filter_distributes_over_add(pattern.prefix, cased, f);
    Seq::filter_distributes_over_add(pattern.prefix + cased, pattern.suffix, f);
    lemma_identifier_text_is_kept(pattern.prefix);
    lemma_identifier_text_is_kept(pattern.suffix);
}

/// The name that a pattern makes from the name of a field.
pub open spec fn pattern_name(pattern: NamePatternView, field: Seq<char>) -> Seq<char> {
    compose_name(pattern, case_text(field, pattern.style))
}

/// A pattern with nothing around the converted name.
pub open spec fn bare_pattern(style: CaseStyle) -> NamePatternView {
    NamePatternView { prefix: Seq::empty(), style, suffix: Seq::empty() }
}

/// The convention of the Qt bindings: the data struct is named by appending
/// `Rs`; a field `f` is read by `get` + Title(f), written by `set` + Title(f)
/// and announced by Camel(f) + `Changed` in C++, and is called Snake(f),
/// `set_` + Snake(f) and Snake(f) in Rust, each without what separates the
/// words of Title(f).
pub open spec fn standard_rules() -> NamingRulesView {
    NamingRulesView {
        storage_suffix: "Rs"@,
        getter: AccessorPatternView {
            cpp: NamePatternView {
                prefix: "get"@,
                style: CaseStyle::Title,
                suffix: Seq::empty(),
            },
            rust: bare_pattern(CaseStyle::Snake),
        },
        setter: AccessorPatternView {
            cpp: NamePatternView {
                prefix: "set"@,
                style: CaseStyle::Title,
                suffix: Seq::empty(),
            },
            rust: NamePatternView {
                prefix: "set_"@,
                style: CaseStyle::Snake,
                suffix: Seq::empty(),
            },
        },
        notify: AccessorPatternView {
            cpp: NamePatternView {
                prefix: Seq::empty(),
                style: CaseStyle::Camel,
                suffix: "Changed"@,
            },
            rust: bare_pattern(CaseStyle::Snake),
        },
    }
}

impl NamePattern {
    /// A pattern that puts `prefix` before and `suffix` after the name in
    /// the style `style`.
    pub fn new(prefix: &str, style: CaseStyle, suffix: &str) -> (r: NamePattern)
        ensures
            r@ == (NamePatternView { prefix: prefix@, style, suffix: suffix@ }),
    {
        NamePattern { prefix: prefix.to_owned(), style, suffix: suffix.to_owned() }
    }

    /// Puts the prefix and the suffix around a name that is already
    /// converted to the pattern's style, and keeps of the whole the letters,
    /// digits and underscores: the name is one that an identifier can have.
    pub fn compose(&self, cased: &str) -> (r: String)
        ensures
            r@ == compose_name(self@, cased@),
            is_identifier_text(r@),
    {
        let mut name = self.prefix.clone();
        name.append(cased);
        name.append(self.suffix.as_str());
        identifier_part(name.as_str())
    }

    /// Makes the name that the pattern gives a field called `field`.
    pub(crate) fn apply(&self, field: &str) -> (r: String)
        requires
            is_ascii_chars(field@),
        ensures
            r@ == pattern_name(self@, field@),
            is_identifier_text(r@),
    {
        let cased = to_case(field, self.style);
        self.compose(cased.as_str())
    }
}

impl NamingRules {
    /// The convention of the Qt bindings.
    pub fn standard() -> (r: NamingRules)
        ensures
            r@ == standard_rules(),
    {
        let r = NamingRules {
            storage_suffix: "Rs".to_owned(),
            getter: AccessorPattern {
                cpp: NamePattern::new("get", CaseStyle::Title, ""),
                rust: NamePattern::new("", CaseStyle::Snake, ""),
            },
            setter: AccessorPattern {
                cpp: NamePattern::new("set", CaseStyle::Title, ""),
                rust: NamePattern::new("set_", CaseStyle::Snake, ""),
            },
            notify: AccessorPattern {
                cpp: NamePattern::new("", CaseStyle::Camel, "Changed"),
                rust: NamePattern::new("", CaseStyle::Snake, ""),
            },
        };
        proof {
            reveal_strlit("");
            assert(""@ =~= Seq::<char>::empty());
        }
        r
    }
}

} // verus!
