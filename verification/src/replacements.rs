//! Word and phrase replacement: user-configured rules, applied one after the
//! other as whole-word, case-insensitive substitutions, plus the stock of
//! filler words the transcript post-processing strips. The substitutions
//! themselves run through the regex engine behind named results; the rule
//! bookkeeping and the order of application are verified.

use vstd::prelude::*;
use vstd::string::StringExecFns;

use crate::error::TjvoxError;

verus! {

/// `text` with every whole-word, case-insensitive occurrence of `word`
/// replaced by `rep`; a function of the three arguments alone.
pub uninterp spec fn word_replaced(text: Seq<char>, word: Seq<char>, rep: Seq<char>) -> Seq<char>;

/// Relies on regex::Regex::replace_all over the pattern `(?i)\b…\b` built
/// from regex::escape of `word`: every whole-word, case-insensitive match of
/// `word` is replaced by `rep`. A word-boundary pattern cannot match inside
/// empty text, so empty text comes back unchanged.
#[verifier::external_body]
pub(crate) fn replace_word(text: &str, word: &str, rep: &str) -> (r: String)
    ensures
        r@ == word_replaced(text@, word@, rep@),
        text@.len() == 0 ==> r@ == text@,
{
    let pattern = format!(r"(?i)\b{}\b", regex::escape(word));
    match regex::Regex::new(&pattern) {
        Ok(re) => re.replace_all(text, rep).into_owned(),
        Err(_) => text.to_string(),
    }
}

/// `text` with every whole-word, case-insensitive occurrence of `word`, plus
/// a directly following comma if there is one, replaced by a single space; a
/// function of the two arguments alone.
pub uninterp spec fn filler_stripped(text: Seq<char>, word: Seq<char>) -> Seq<char>;

/// Relies on regex::Regex::replace_all over the pattern `(?i)\b…\b[,]?`
/// built from regex::escape of `word`, replacing by one space: how the
/// transcript post-processing blots out one filler word. A word-boundary
/// pattern cannot match inside empty text, so empty text comes back
/// unchanged.
#[verifier::external_body]
pub(crate) fn strip_filler_word(text: &str, word: &str) -> (r: String)
    ensures
        r@ == filler_stripped(text@, word@),
        text@.len() == 0 ==> r@ == text@,
{
    let pattern = format!(r"(?i)\b{}\b[,]?", regex::escape(word));
    match regex::Regex::new(&pattern) {
        Ok(re) => re.replace_all(text, " ").into_owned(),
        Err(_) => text.to_string(),
    }
}

/// The string-valued entries of the named table of a TOML document, in the
/// document table's own order, or None when the document does not parse; a
/// function of the two arguments alone.
pub uninterp spec fn toml_string_entries(content: Seq<char>, section: Seq<char>) -> Option<
    Seq<(Seq<char>, Seq<char>)>,
>;

/// Relies on toml::from_str into a toml::Value and on Value::get, as_table
/// and as_str: collects the entries of the named table whose values are
/// strings, in the table's order. A document that does not parse gives None;
/// one without the table gives no entries.
#[verifier::external_body]
pub(crate) fn toml_table_string_entries(content: &str, section: &str) -> (r: Option<
    Vec<(String, String)>,
>)
    ensures
        r is Some <==> toml_string_entries(content@, section@) is Some,
        r matches Some(v) ==> toml_string_entries(content@, section@) matches Some(s)
            && v.deep_view() == s,
{
    let value: toml::Value = match toml::from_str(content) {
        Ok(v) => v,
        Err(_) => return None,
    };
    let mut out: Vec<(String, String)> = Vec::new();
    if let Some(table) = value.get(section).and_then(|v| v.as_table()) {
        for (k, v) in table {
            if let Some(s) = v.as_str() {
                out.push((k.clone(), s.to_string()));
            }
        }
    }
    Some(out)
}

/// The text after every rule has been applied, first rule first.
pub open spec fn apply_rules_spec(rules: Seq<(Seq<char>, Seq<char>)>, text: Seq<char>) -> Seq<char>
    decreases rules.len(),
{
    if rules.len() == 0 {
        text
    } else {
        apply_rules_spec(rules.skip(1), word_replaced(text, rules[0].0, rules[0].1))
    }
}

pub struct ReplacementEngine {
    pub rules: Vec<(String, String)>,
}

/// The text of the rules file the daemon writes when none exists yet.
pub open spec fn default_rules_text() -> Seq<char> {
    "[replacements]\n\"period\" = \".\"\n\"comma\" = \",\"\n\"question mark\" = \"?\"\n\"exclamation mark\" = \"!\"\n\"new line\" = \"\\n\"\n\"new paragraph\" = \"\\n\\n\"\n"@
}

impl ReplacementEngine {
    /// An engine holding exactly the given rules.
    pub fn from_rules(rules: Vec<(String, String)>) -> (r: Self)
        ensures
            r.rules == rules,
    {
        ReplacementEngine { rules }
    }

    /// Builds the engine from the text of a rules file: the string entries
    /// of its `[replacements]` table become the rules, in order; text that
    /// is not a TOML document is a configuration error.
    pub fn load(content: &str) -> (r: Result<Self, TjvoxError>)
        ensures
            r is Ok <==> toml_string_entries(content@, "replacements"@) is Some,
            r matches Ok(e) ==> toml_string_entries(content@, "replacements"@) matches Some(s)
                && e.rules.deep_view() == s,
            r matches Err(e) ==> e matches TjvoxError::Config(m) && m@
                == "Failed to parse replacements file"@,
    {
        match toml_table_string_entries(content, "replacements") {
            Some(rules) => Ok(ReplacementEngine { rules }),
            None => Err(TjvoxError::Config(String::from_str("Failed to parse replacements file"))),
        }
    }

    /// The default rules file content, written out when no file exists.
    pub fn default_content() -> (r: String)
        ensures
            r@ == default_rules_text(),
    {
        String::from_str(
            "[replacements]\n\"period\" = \".\"\n\"comma\" = \",\"\n\"question mark\" = \"?\"\n\"exclamation mark\" = \"!\"\n\"new line\" = \"\\n\"\n\"new paragraph\" = \"\\n\\n\"\n",
        )
    }

    /// Applies every rule to the text, first rule first. Empty text has no
    /// whole-word matches and stays empty.
    pub fn apply(&self, text: &str) -> (r: String)
        ensures
            r@ == apply_rules_spec(self.rules.deep_view(), text@),
            text@.len() == 0 ==> r@ == text@,
    {
        let ghost all = self.rules.deep_view();
        let mut cur: String = text.to_owned();
        let n = self.rules.len();
        proof {
            assert(all.skip(0) =~= all);
        }
        for i in 0..n
            invariant
                n == self.rules.len(),
                all == self.rules.deep_view(),
                apply_rules_spec(all.skip(i as int), cur@) == apply_rules_spec(all, text@),
                text@.len() == 0 ==> cur@ == text@,
        {
            proof {
                assert(all.skip(i as int).skip(1) =~= all.skip(i + 1));
                assert(all.skip(i as int)[0] == all[i as int]);
                assert(all[i as int].0 == self.rules@[i as int].0@);
                assert(all[i as int].1 == self.rules@[i as int].1@);
            }
            let next = replace_word(
                cur.as_str(),
                self.rules[i].0.as_str(),
                self.rules[i].1.as_str(),
            );
            cur = next;
        }
        proof {
            assert(all.skip(n as int) =~= Seq::<(Seq<char>, Seq<char>)>::empty());
        }
        cur
    }
}

} // verus!
