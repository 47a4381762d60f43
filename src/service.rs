//! The decisions behind scaffolding a service: its name, the repository it
//! goes to, which custom questions apply, and the specs file the answers make.
use vstd::prelude::*;

use crate::codec::{parse_yaml_map, yaml_string_map, yaml_text};
use crate::document::{entries_map, VaultDocument};
use crate::text::{push_char, same_text, trim, trim_of};

verus! {

/// A selectable option of a custom question.
pub struct OptionElement {
    pub display: String,
    pub value: String,
}

/// A question is only asked when an earlier answer to `question` is one of `values`.
pub struct Condition {
    pub question: String,
    pub values: Vec<String>,
}

/// A custom question from the service questions file.
pub struct Question {
    pub name: String,
    pub question: String,
    pub required: bool,
    pub default: Option<String>,
    pub options: Option<Vec<OptionElement>>,
    pub condition: Option<Condition>,
}

/// The service questions file.
pub struct Root {
    pub questions: Vec<Question>,
}

/// The answer given to a custom question.
pub struct Answer {
    pub name: String,
    pub value: String,
}

/// Spaces turned into dashes.
pub open spec fn dashed(s: Seq<char>) -> Seq<char> {
    Seq::new(s.len(), |i: int| if s[i] == ' ' { '-' } else { s[i] })
}

/// The service name for what the user typed: trimmed, with spaces turned into
/// dashes; nothing when only white space was typed.
pub fn service_name_from_input(raw: &str) -> (r: Option<String>)
    ensures
        match r {
            Some(n) => trim_of(raw@).len() > 0 && n@ == dashed(trim_of(raw@)),
            None => trim_of(raw@).len() == 0,
        },
{
    let t = trim(raw);
    let n = t.unicode_len();
    if n == 0 {
        return None;
    }
    let mut out = String::new();
    let mut i: usize = 0;
    while i < n
        invariant
            n == t@.len(),
            i <= n,
            out@ == dashed(t@).subrange(0, i as int),
        decreases n - i,
    {
        let c = t.get_char(i);
        push_char(&mut out, if c == ' ' { '-' } else { c });
        i += 1;
        assert(out@ =~= dashed(t@).subrange(0, i as int));
    }
    assert(out@ =~= dashed(t@));
    Some(out)
}

/// Index of the first `/` in `s` at or after `from`, or the length of `s`.
pub open spec fn first_slash_from(s: Seq<char>, from: int) -> int
    decreases s.len() - from,
{
    if from < 0 || from >= s.len() {
        s.len() as int
    } else if s[from] == '/' {
        from
    } else {
        first_slash_from(s, from + 1)
    }
}

fn find_slash(s: &str, from: usize) -> (r: usize)
    requires
        from <= s@.len(),
    ensures
        r == first_slash_from(s@, from as int),
{
    let n = s.unicode_len();
    let mut i = from;
    while i < n
        invariant
            n == s@.len(),
            from <= i <= n,
            first_slash_from(s@, from as int) == first_slash_from(s@, i as int),
        decreases n - i,
    {
        if s.get_char(i) == '/' {
            return i;
        }
        i += 1;
    }
    i
}

/// Owner and repository name for `service_name`: `owner/name` is split at its
/// first slash (the name ends at the next one), a bare name belongs to `login`.
pub open spec fn repo_parts(service_name: Seq<char>, login: Seq<char>) -> (Seq<char>, Seq<char>) {
    let i = first_slash_from(service_name, 0);
    if i < service_name.len() {
        (
            service_name.subrange(0, i),
            service_name.subrange(i + 1, first_slash_from(service_name, i + 1)),
        )
    } else {
        (login, service_name)
    }
}

/// Splits a service or template name into owner and repository name.
pub fn split_repo_name(service_name: &String, login: &String) -> (r: (String, String))
    ensures
        r.0@ == repo_parts(service_name@, login@).0,
        r.1@ == repo_parts(service_name@, login@).1,
{
    let s = service_name.as_str();
    let n = s.unicode_len();
    let i = find_slash(s, 0);
    if i < n {
        let j = find_slash(s, i + 1);
        proof {
            lemma_first_slash_bounds(s@, (i + 1) as int);
        }
        let owner = String::from_str(s.substring_char(0, i));
        let name = String::from_str(s.substring_char(i + 1, j));
        (owner, name)
    } else {
        (login.clone(), service_name.clone())
    }
}

proof fn lemma_first_slash_bounds(s: Seq<char>, from: int)
    requires
        0 <= from <= s.len(),
    ensures
        from <= first_slash_from(s, from) <= s.len(),
    decreases s.len() - from,
{
    if from < s.len() && s[from] != '/' {
        lemma_first_slash_bounds(s, from + 1);
    }
}

/// The condition holds when the first answer to its question has one of its values.
pub open spec fn condition_holds(c: Condition, answers: Seq<Answer>) -> bool {
    exists|i: int|
        {
            &&& 0 <= i < answers.len()
            &&& (#[trigger] answers[i]).name@ == c.question@
            &&& forall|j: int| 0 <= j < i ==> (#[trigger] answers[j]).name@ != c.question@
            &&& exists|k: int| 0 <= k < c.values@.len() && (#[trigger] c.values@[k])@ == answers[i].value@
        }
}

/// Whether a question is asked, given the answers so far.
pub open spec fn question_applies(q: Question, answers: Seq<Answer>) -> bool {
    match q.condition {
        None => true,
        Some(c) => condition_holds(c, answers),
    }
}

/// Whether a condition holds for the answers given so far.
pub fn condition_met(condition: &Condition, answers: &Vec<Answer>) -> (r: bool)
    ensures
        r == condition_holds(*condition, answers@),
{
    let n = answers.len();
    let mut i: usize = 0;
    while i < n
        invariant
            n == answers@.len(),
            i <= n,
            forall|j: int| 0 <= j < i ==> (#[trigger] answers@[j]).name@ != condition.question@,
        decreases n - i,
    {
        if same_text(answers[i].name.as_str(), condition.question.as_str()) {
            let m = condition.values.len();
            let mut k: usize = 0;
            while k < m
                invariant
                    m == condition.values@.len(),
                    k <= m,
                    i < n,
                    n == answers@.len(),
                    answers@[i as int].name@ == condition.question@,
                    forall|j: int| 0 <= j < i ==> (#[trigger] answers@[j]).name@ != condition.question@,
                    forall|l: int| 0 <= l < k ==> (#[trigger] condition.values@[l])@ != answers@[i as int].value@,
                decreases m - k,
            {
                if same_text(condition.values[k].as_str(), answers[i].value.as_str()) {
                    assert(0 <= k < condition.values@.len() && condition.values@[k as int]@
                        == answers@[i as int].value@);
                    return true;
                }
                k += 1;
            }
            proof {
                assert forall|x: int|
                    {
                        &&& 0 <= x < answers@.len()
                        &&& (#[trigger] answers@[x]).name@ == condition.question@
                        &&& forall|j: int| 0 <= j < x ==> (#[trigger] answers@[j]).name@ != condition.question@
                    } implies x == i by {
                    if x < i {
                    } else if x > i {
                        assert(answers@[i as int].name@ != condition.question@);
                    }
                }
            }
            return false;
        }
        i += 1;
    }
    false
}

/// Index of the next question, at or after `from`, that applies to the answers
/// given so far.
pub fn next_question(questions: &Vec<Question>, from: usize, answers: &Vec<Answer>) -> (r: Option<
    usize,
>)
    ensures
        match r {
            Some(j) => from <= j < questions@.len() && question_applies(questions@[j as int], answers@)
                && forall|k: int| from <= k < j ==> !question_applies(#[trigger] questions@[k], answers@),
            None => forall|k: int|
                from <= k < questions@.len() ==> !question_applies(#[trigger] questions@[k], answers@),
        },
{
    let n = questions.len();
    let mut i = from;
    while i < n
        invariant
            n == questions@.len(),
            from <= i,
            forall|k: int| from <= k < i ==> !question_applies(#[trigger] questions@[k], answers@),
        decreases n - i,
    {
        let q = &questions[i];
        let applies = match &q.condition {
            None => true,
            Some(c) => condition_met(c, answers),
        };
        assert(applies == question_applies(*q, answers@));
        if applies {
            return Some(i);
        }
        i += 1;
    }
    None
}

/// The answer for question `name` when the user picked option `picked`.
pub fn get_answer(name: &String, options: &Vec<OptionElement>, picked: usize) -> (r: Option<Answer>)
    ensures
        match r {
            Some(a) => picked < options@.len() && a.name@ == name@ && a.value@ == options@[picked as int].value@,
            None => picked >= options@.len(),
        },
{
    if picked < options.len() {
        Some(Answer { name: name.clone(), value: options[picked].value.clone() })
    } else {
        None
    }
}

/// The options of a question as offered in a selection: each shows its
/// display text and yields its value.
pub fn option_choices(options: &Vec<OptionElement>) -> (r: Vec<crate::workflow::Choice<String>>)
    ensures
        r@.len() == options@.len(),
        forall|i: int|
            0 <= i < r@.len() ==> (#[trigger] r@[i]).prompt@ == options@[i].display@ && r@[i].choice@
                == options@[i].value@,
{
    let mut r: Vec<crate::workflow::Choice<String>> = Vec::new();
    let n = options.len();
    let mut i: usize = 0;
    while i < n
        invariant
            n == options@.len(),
            i <= n,
            r@.len() == i,
            forall|j: int|
                0 <= j < i ==> (#[trigger] r@[j]).prompt@ == options@[j].display@ && r@[j].choice@
                    == options@[j].value@,
        decreases n - i,
    {
        r.push(
            crate::workflow::Choice {
                choice: options[i].value.clone(),
                prompt: options[i].display.clone(),
            },
        );
        i += 1;
    }
    r
}

/// The mapping `m` with the answers stored in order, a later answer to the
/// same question winning.
pub open spec fn with_answers(m: Map<Seq<char>, Seq<char>>, answers: Seq<Answer>) -> Map<
    Seq<char>,
    Seq<char>,
>
    decreases answers.len(),
{
    if answers.len() == 0 {
        m
    } else {
        with_answers(m, answers.drop_last()).insert(answers.last().name@, answers.last().value@)
    }
}

/// Why the service specs file could not be produced.
#[derive(Debug, Clone, Copy, PartialEq, Eq, Structural)]
pub enum SpecsError {
    /// The existing file is not a mapping of names to strings.
    Malformed,
    /// The mapping could not be written as YAML.
    Unserializable,
}

/// The specs file text: the mapping in `existing` with the answers stored.
pub fn service_specs_text(existing: &str, answers: &Vec<Answer>) -> (r: Result<String, SpecsError>)
    ensures
        match r {
            Ok(t) => yaml_string_map(existing@) matches Some(m) && yaml_string_map(t@) == Some(
                with_answers(m, answers@),
            ),
            Err(e) => match yaml_string_map(existing@) {
                None => e == SpecsError::Malformed,
                Some(_) => e == SpecsError::Unserializable,
            },
        },
{
    let entries = match parse_yaml_map(existing) {
        Ok(v) => v,
        Err(_) => return Err(SpecsError::Malformed),
    };
    let ghost base = entries_map(entries@);
    let mut doc = VaultDocument::from_entries(entries);
    let n = answers.len();
    let mut i: usize = 0;
    while i < n
        invariant
            n == answers@.len(),
            i <= n,
            doc.wf(),
            doc@ == with_answers(base, answers@.subrange(0, i as int)),
        decreases n - i,
    {
        doc.insert(answers[i].name.clone(), answers[i].value.clone());
        assert(answers@.subrange(0, (i + 1) as int).drop_last() =~= answers@.subrange(0, i as int));
        i += 1;
    }
    assert(answers@.subrange(0, n as int) =~= answers@);
    let out = doc.entries();
    match yaml_text(out) {
        Ok(t) => Ok(t),
        Err(_) => Err(SpecsError::Unserializable),
    }
}

} // verus!
