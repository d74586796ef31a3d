//! Showing a command plan as a shell command line.
use vstd::prelude::*;
use crate::strmap::StrMap;
use crate::text::{chars_of, concat, concat3, is_ascii_alnum, push_char};
use crate::types::CommandPlan;

verus! {

/// Characters that need no quoting in a shell word.
pub open spec fn shell_plain_char(c: char) -> bool {
    is_ascii_alnum(c) || c == '/' || c == '.' || c == '-' || c == '_' || c == ':' || c == '='
}

/// `s` with each `'` written as `'\''`.
pub open spec fn escape_quotes(s: Seq<char>) -> Seq<char>
    decreases s.len(),
{
    if s.len() == 0 {
        s
    } else if s.last() == '\'' {
        escape_quotes(s.drop_last()) + seq!['\'', '\\', '\'', '\'']
    } else {
        escape_quotes(s.drop_last()).push(s.last())
    }
}

/// The shell word for `s`: `s` itself when every character is plain, and otherwise
/// `s` in single quotes with its own single quotes escaped.
pub open spec fn shell_word(s: Seq<char>) -> Seq<char> {
    if forall|i: int| 0 <= i < s.len() ==> shell_plain_char(#[trigger] s[i]) {
        s
    } else {
        seq!['\''] + escape_quotes(s) + seq!['\'']
    }
}

/// `value` as a single shell word.
pub fn shell_quote(value: &str) -> (r: String)
    ensures r@ == shell_word(value@),
{
    let v = chars_of(value);
    let mut plain = true;
    let mut i: usize = 0;
    while i < v.len()
        invariant
            v@ == value@,
            i <= v.len(),
            plain == forall|k: int| 0 <= k < i ==> shell_plain_char(#[trigger] v@[k]),
        decreases v.len() - i,
    {
        let c = v[i];
        let ok = crate::text::char_is_ascii_alnum(c) || c == '/' || c == '.' || c == '-' || c == '_' || c == ':' || c == '=';
        if !ok {
            plain = false;
        }
        i = i + 1;
    }
    if plain {
        return value.to_owned();
    }
    let mut out = String::new();
    push_char(&mut out, '\'');
    let mut j: usize = 0;
    while j < v.len()
        invariant
            v@ == value@,
            j <= v.len(),
            out@ == seq!['\''] + escape_quotes(value@.take(j as int)),
        decreases v.len() - j,
    {
        let c = v[j];
        assert(value@.take(j + 1).drop_last() =~= value@.take(j as int));
        if c == '\'' {
            push_char(&mut out, '\'');
            push_char(&mut out, '\\');
            push_char(&mut out, '\'');
            push_char(&mut out, '\'');
            assert(out@ =~= seq!['\''] + escape_quotes(value@.take(j + 1)));
        } else {
            push_char(&mut out, c);
            assert(out@ =~= seq!['\''] + escape_quotes(value@.take(j + 1)));
        }
        j = j + 1;
    }
    assert(value@.take(v.len() as int) =~= value@);
    push_char(&mut out, '\'');
    out
}

/// `parts` separated by single spaces.
pub open spec fn spaced(parts: Seq<Seq<char>>) -> Seq<char>
    decreases parts.len(),
{
    if parts.len() == 0 {
        Seq::empty()
    } else if parts.len() == 1 {
        parts[0]
    } else {
        spaced(parts.drop_last()) + seq![' '] + parts.last()
    }
}

fn spaced_text(parts: &Vec<String>) -> (r: String)
    ensures r@ == spaced(parts.deep_view()),
{
    let mut out = String::new();
    let mut i: usize = 0;
    while i < parts.len()
        invariant
            i <= parts.len(),
            out@ == spaced(parts.deep_view().take(i as int)),
        decreases parts.len() - i,
    {
        assert(parts.deep_view().take(i + 1).drop_last() =~= parts.deep_view().take(i as int));
        if i > 0 {
            push_char(&mut out, ' ');
        } else {
            assert(parts.deep_view().take(1)[0] == parts.deep_view()[0]);
        }
        out.append(parts[i].as_str());
        i = i + 1;
    }
    assert(parts.deep_view().take(i as int) =~= parts.deep_view());
    out
}

/// The words of a command: the program, then each argument, each quoted.
pub open spec fn command_words(program: Seq<char>, args: Seq<Seq<char>>) -> Seq<Seq<char>> {
    seq![shell_word(program)] + args.map_values(|a: Seq<char>| shell_word(a))
}

/// The `KEY=VALUE` words of an environment, in key order, each side quoted.
pub open spec fn env_words(envs: Seq<(Seq<char>, Seq<char>)>) -> Seq<Seq<char>> {
    envs.map_values(|e: (Seq<char>, Seq<char>)| shell_word(e.0) + seq!['='] + shell_word(e.1))
}

/// The command line for a plan: its environment words, if any, before the command,
/// and a `cd` into its working directory, if it has one, before that.
pub open spec fn display_text(plan: CommandPlan) -> Seq<char> {
    let command = spaced(command_words(plan.program@, plan.args.deep_view()));
    let with_env = if plan.envs@.len() == 0 {
        command
    } else {
        spaced(env_words(plan.envs@)) + seq![' '] + command
    };
    match plan.current_dir {
        Some(d) => "cd "@ + shell_word(d@) + " && "@ + with_env,
        None => with_env,
    }
}

fn env_word_list(envs: &StrMap) -> (r: Vec<String>)
    ensures r.deep_view() == env_words(envs@),
{
    let mut out: Vec<String> = Vec::new();
    let mut i: usize = 0;
    while i < envs.len()
        invariant
            i <= envs@.len(),
            out.deep_view() == env_words(envs@.take(i as int)),
        decreases envs@.len() - i,
    {
        let k = shell_quote(envs.key_at(i).as_str());
        let v = shell_quote(envs.value_at(i).as_str());
        let ghost before = out.deep_view();
        out.push(concat3(k.as_str(), "=", v.as_str()));
        proof {
            reveal_strlit("=");
            assert("="@ =~= seq!['=']);
            assert(env_words(envs@.take(i + 1)) =~= env_words(envs@.take(i as int)).push(
                shell_word(envs@[i as int].0) + seq!['='] + shell_word(envs@[i as int].1)));
            assert(out.deep_view() =~= before.push(shell_word(envs@[i as int].0) + seq!['='] + shell_word(envs@[i as int].1)));
        }
        i = i + 1;
    }
    assert(envs@.take(i as int) =~= envs@);
    out
}

impl CommandPlan {
    /// The plan as a shell command line.
    pub fn display(&self) -> (r: String)
        ensures r@ == display_text(*self),
    {
        let mut words: Vec<String> = Vec::new();
        words.push(shell_quote(self.program.as_str()));
        let mut i: usize = 0;
        while i < self.args.len()
            invariant
                i <= self.args.len(),
                words.deep_view() == seq![shell_word(self.program@)]
                    + self.args.deep_view().take(i as int).map_values(|a: Seq<char>| shell_word(a)),
            decreases self.args.len() - i,
        {
            let ghost before = words.deep_view();
            words.push(shell_quote(self.args[i].as_str()));
            assert(self.args.deep_view().take(i + 1).map_values(|a: Seq<char>| shell_word(a))
                =~= self.args.deep_view().take(i as int).map_values(|a: Seq<char>| shell_word(a)).push(shell_word(self.args@[i as int]@)));
            assert(words.deep_view() =~= before.push(shell_word(self.args@[i as int]@)));
            i = i + 1;
        }
        assert(self.args.deep_view().take(i as int) =~= self.args.deep_view());
        let command = spaced_text(&words);
        let with_env = if self.envs.is_empty() {
            command
        } else {
            let envs = spaced_text(&env_word_list(&self.envs));
            concat3(envs.as_str(), " ", command.as_str())
        };
        proof {
            reveal_strlit(" ");
            reveal_strlit("cd ");
            reveal_strlit(" && ");
        }
        match &self.current_dir {
            Some(d) => {
                let q = shell_quote(d.as_str());
                concat(concat3("cd ", q.as_str(), " && ").as_str(), with_env.as_str())
            }
            None => with_env,
        }
    }
}

} // verus!
