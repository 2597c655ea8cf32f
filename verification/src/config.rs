//! The server's configuration, and the `.env` files it may be read from.
use crate::text::{
    chars_of, collect_range, decimal, index_of, lemma_index_of_absent, lemma_index_of_bounds,
    lemma_index_of_first, lemma_index_of_found, write_decimal,
};
use crate::helpers::error::Report;
use vstd::prelude::*;

verus! {

/// The server's configuration.
pub struct Config {
    pub database_url: String,
    pub host: String,
    pub port: u16,
    pub secret_key: String,
    pub domain_url: String,
}

/// A line without its terminator: `\n`, or `\r\n`.
pub open spec fn strip_terminator(piece: Seq<char>) -> Seq<char> {
    if piece.len() > 0 && piece.last() == '\r' {
        piece.drop_last()
    } else {
        piece
    }
}

/// The lines of a text as `str::lines` gives them: split after each `\n`,
/// each line without its `\n` or `\r\n`; a last line without a terminator
/// is kept, and no empty line follows a final terminator.
pub open spec fn lines_of(s: Seq<char>) -> Seq<Seq<char>>
    decreases s.len(),
{
    if s.len() == 0 {
        Seq::empty()
    } else {
        let k = index_of(s, '\n');
        if k < 0 {
            seq![s]
        } else {
            proof {
                lemma_index_of_bounds(s, '\n');
            }
            seq![strip_terminator(s.take(k))] + lines_of(s.skip(k + 1))
        }
    }
}

/// The assignment that a line makes: the text before its first `=` is the
/// key and the rest is the value; a line without `=` makes none.
pub open spec fn assignment_of(line: Seq<char>) -> Option<(Seq<char>, Seq<char>)> {
    let k = index_of(line, '=');
    if k < 0 {
        None
    } else {
        Some((line.take(k), line.skip(k + 1)))
    }
}

/// The assignments that the lines make, in order.
pub open spec fn assignments_of(lines: Seq<Seq<char>>) -> Seq<(Seq<char>, Seq<char>)>
    decreases lines.len(),
{
    if lines.len() == 0 {
        Seq::empty()
    } else {
        match assignment_of(lines[0]) {
            Some(p) => seq![p] + assignments_of(lines.drop_first()),
            None => assignments_of(lines.drop_first()),
        }
    }
}

/// An assignment splits its line at the first `=`: the key holds no `=`,
/// and key, `=` and value make up the line again.
pub proof fn lemma_assignment_rebuilds_line(line: Seq<char>)
    ensures
        assignment_of(line) matches Some((key, value)) ==> {
            &&& key + seq!['='] + value == line
            &&& forall|i: int| 0 <= i < key.len() ==> key[i] != '='
        },
{
    lemma_index_of_bounds(line, '=');
    let k = index_of(line, '=');
    if k >= 0 {
        lemma_index_of_first(line, '=');
        assert(line.take(k) + seq!['='] + line.skip(k + 1) =~= line);
    }
}

/// A line that holds `=` makes exactly one assignment: the text before its
/// first `=` is the key, and all that follows it, empty or not, is the value.
pub proof fn lemma_line_with_equals_assigns(line: Seq<char>, k: int)
    requires
        0 <= k < line.len(),
        line[k] == '=',
        forall|j: int| 0 <= j < k ==> line[j] != '=',
    ensures
        assignment_of(line) == Some((line.take(k), line.skip(k + 1))),
        k + 1 == line.len() ==> assignment_of(line) == Some((line.take(k), Seq::<char>::empty())),
{
    lemma_index_of_found(line, '=', k);
    if k + 1 == line.len() {
        assert(line.skip(k + 1) =~= Seq::<char>::empty());
    }
}

/// A line without `=` makes no assignment.
pub proof fn lemma_line_without_equals_assigns_nothing(line: Seq<char>)
    requires
        forall|j: int| 0 <= j < line.len() ==> line[j] != '=',
    ensures
        assignment_of(line) is None,
{
    lemma_index_of_absent(line, '=');
}

/// A text of one line, with no line break, makes the assignment of that
/// line and no other: its key the text before the first `=` and its value
/// the rest, which may be empty.
pub proof fn lemma_one_line_content(content: Seq<char>, k: int)
    requires
        forall|j: int| 0 <= j < content.len() ==> content[j] != '\n',
        0 <= k < content.len(),
        content[k] == '=',
        forall|j: int| 0 <= j < k ==> content[j] != '=',
    ensures
        assignments_of(lines_of(content)) == seq![(content.take(k), content.skip(k + 1))],
{
    lemma_index_of_absent(content, '\n');
    lemma_line_with_equals_assigns(content, k);
    let ls = lines_of(content);
    assert(ls =~= seq![content]);
    assert(ls[0] == content);
    assert(ls.drop_first() =~= Seq::<Seq<char>>::empty());
    assert(assignments_of(ls.drop_first()) == Seq::<(Seq<char>, Seq<char>)>::empty());
    assert(assignments_of(ls) == seq![(content.take(k), content.skip(k + 1))] + Seq::<
        (Seq<char>, Seq<char>),
    >::empty());
    assert(seq![(content.take(k), content.skip(k + 1))] + Seq::<(Seq<char>, Seq<char>)>::empty()
        =~= seq![(content.take(k), content.skip(k + 1))]);
}

/// The lines of a text are read one after another: a first line ended by
/// `\n` (and not by `\r\n`) contributes its assignment, if it makes one,
/// before the assignments of the rest of the text.
pub proof fn lemma_first_line_comes_first(line: Seq<char>, rest: Seq<char>)
    requires
        forall|j: int| 0 <= j < line.len() ==> line[j] != '\n',
        line.len() == 0 || line.last() != '\r',
    ensures
        assignments_of(lines_of(line + seq!['\n'] + rest)) == (match assignment_of(line) {
            Some(p) => seq![p],
            None => Seq::<(Seq<char>, Seq<char>)>::empty(),
        }) + assignments_of(lines_of(rest)),
{
    let content = line + seq!['\n'] + rest;
    let n = line.len() as int;
    assert forall|j: int| 0 <= j < n implies content[j] != '\n' by {
        assert(content[j] == line[j]);
    }
    lemma_index_of_found(content, '\n', n);
    assert(content.take(n) =~= line);
    assert(content.skip(n + 1) =~= rest);
    assert(strip_terminator(line) == line);
    let ls = lines_of(content);
    assert(ls =~= seq![line] + lines_of(rest));
    assert(ls[0] == line);
    assert(ls.drop_first() =~= lines_of(rest));
    match assignment_of(line) {
        Some(p) => {
            assert(assignments_of(ls) == seq![p] + assignments_of(lines_of(rest)));
        },
        None => {
            assert(assignments_of(ls) == assignments_of(lines_of(rest)));
            assert(Seq::<(Seq<char>, Seq<char>)>::empty() + assignments_of(lines_of(rest))
                =~= assignments_of(lines_of(rest)));
        },
    }
}

/// The views of a list of key and value pairs.
pub open spec fn pairs_view(v: Seq<(String, String)>) -> Seq<(Seq<char>, Seq<char>)> {
    v.map_values(|p: (String, String)| (p.0@, p.1@))
}

/// The path of the environment file for a run environment: `.env`, or
/// `.env.<run_env>` when one is named.
pub open spec fn env_file_path_of(run_env: Seq<char>) -> Seq<char> {
    if run_env.len() == 0 {
        ".env"@
    } else {
        ".env"@ + "."@ + run_env
    }
}

/// The environment file is `.env` exactly when no run environment is named;
/// for any named one it is `.env.` followed by that name.
pub proof fn lemma_env_file_path(run_env: Seq<char>)
    ensures
        run_env.len() == 0 ==> env_file_path_of(run_env) == ".env"@,
        run_env.len() > 0 ==> env_file_path_of(run_env) == ".env."@ + run_env,
        run_env.len() > 0 ==> env_file_path_of(run_env).len() == run_env.len() + 5
            && env_file_path_of(run_env).skip(5) == run_env,
{
    reveal_strlit(".env");
    reveal_strlit(".");
    reveal_strlit(".env.");
    if run_env.len() > 0 {
        assert(".env"@ + "."@ =~= ".env."@);
        assert(".env"@ + "."@ + run_env =~= ".env."@ + run_env);
        assert((".env."@ + run_env).skip(5) =~= run_env);
    }
}

/// The assignment that the line `chars[start..end]` makes, if any.
fn line_assignment(chars: &Vec<char>, start: usize, end: usize) -> (r: Option<(String, String)>)
    requires
        start <= end <= chars@.len(),
    ensures
        match (r, assignment_of(chars@.subrange(start as int, end as int))) {
            (Some(p), Some(q)) => p.0@ == q.0 && p.1@ == q.1,
            (None, None) => true,
            _ => false,
        },
{
    let ghost line = chars@.subrange(start as int, end as int);
    let mut j: usize = start;
    while j < end && chars[j] != '='
        invariant
            start <= j <= end <= chars@.len(),
            line == chars@.subrange(start as int, end as int),
            forall|t: int| start <= t < j ==> chars@[t] != '=',
        decreases end - j,
    {
        j = j + 1;
    }
    if j == end {
        proof {
            lemma_index_of_absent(line, '=');
        }
        None
    } else {
        proof {
            lemma_index_of_found(line, '=', j - start);
            assert(line.take(j - start) =~= chars@.subrange(start as int, j as int));
            assert(line.skip(j - start + 1) =~= chars@.subrange(j + 1, end as int));
        }
        Some((collect_range(chars, start, j), collect_range(chars, j + 1, end)))
    }
}

impl Config {
    /// The address to listen on: `<host>:<port>`.
    pub fn url(&self) -> (r: String)
        ensures
            r@ == self.host@ + ":"@ + decimal(self.port as nat),
    {
        let mut out = self.host.clone();
        out.append(":");
        write_decimal(&mut out, self.port as u64);
        out
    }

    /// The environment file to read for the run environment `run_env`.
    pub fn env_file_path(run_env: &str) -> (r: String)
        ensures
            r@ == env_file_path_of(run_env@),
    {
        let mut path = String::from_str(".env");
        if run_env.is_empty() {
            path
        } else {
            path.append(".");
            path.append(run_env);
            path
        }
    }

    /// The assignments that an environment file's content makes: one per
    /// line that holds `=`, split at the first `=`, in order.
    pub fn env_assignments(content: &str) -> (r: Vec<(String, String)>)
        ensures
            pairs_view(r@) == assignments_of(lines_of(content@)),
    {
        let chars = chars_of(content);
        let n: usize = chars.len();
        let mut out: Vec<(String, String)> = Vec::new();
        let mut i: usize = 0;
        proof {
            assert(content@.skip(0) =~= content@);
            assert(pairs_view(out@) =~= Seq::<(Seq<char>, Seq<char>)>::empty());
        }
        while i < n
            invariant
                n == chars@.len(),
                chars@ == content@,
                i <= n,
                assignments_of(lines_of(content@)) == pairs_view(out@) + assignments_of(
                    lines_of(content@.skip(i as int)),
                ),
            decreases n - i,
        {
            let ghost rest = content@.skip(i as int);
            let mut j: usize = i;
            while j < n && chars[j] != '\n'
                invariant
                    i <= j <= n,
                    n == chars@.len(),
                    forall|t: int| i <= t < j ==> chars@[t] != '\n',
                decreases n - j,
            {
                j = j + 1;
            }
            let mut end: usize = j;
            if j < n && end > i && chars[end - 1] == '\r' {
                end = end - 1;
            }
            let found = line_assignment(&chars, i, end);
            let ghost line = chars@.subrange(i as int, end as int);
            let ghost next: int = if j < n { j + 1 } else { n as int };
            proof {
                if j < n {
                    assert forall|t: int| 0 <= t < j - i implies rest[t] != '\n' by {
                        assert(rest[t] == chars@[i + t]);
                    }
                    lemma_index_of_found(rest, '\n', j - i);
                    assert(strip_terminator(rest.take(j - i)) =~= chars@.subrange(i as int, end as int));
                    assert(rest.skip(j - i + 1) =~= content@.skip(j + 1));
                } else {
                    assert forall|t: int| 0 <= t < rest.len() implies rest[t] != '\n' by {
                        assert(rest[t] == chars@[i + t]);
                    }
                    lemma_index_of_absent(rest, '\n');
                    assert(rest =~= chars@.subrange(i as int, end as int));
                    assert(content@.skip(n as int) =~= Seq::<char>::empty());
                }
                let ls = lines_of(rest);
                assert(ls =~= seq![line] + lines_of(content@.skip(next)));
                assert(ls[0] == line);
                assert(ls.drop_first() =~= lines_of(content@.skip(next)));
            }
            let ghost before = pairs_view(out@);
            match found {
                Some(p) => {
                    out.push(p);
                    proof {
                        assert(pairs_view(out@) =~= before + seq![(p.0@, p.1@)]);
                    }
                },
                None => {},
            }
            if j < n {
                i = j + 1;
            } else {
                i = n;
            }
            proof {
                assert(content@.skip(n as int) =~= Seq::<char>::empty());
                assert(lines_of(content@.skip(n as int)) =~= Seq::<Seq<char>>::empty());
            }
        }
        proof {
            assert(content@.skip(n as int) =~= Seq::<char>::empty());
        }
        out
    }
}

/// Where loading the configuration stands. The environment is read first;
/// when it lacks the configuration, the environment file of the run
/// environment is applied and the environment is read once more.
pub enum ConfigLoad {
    /// The environment has not been read yet.
    Start,
    /// The environment lacked the configuration, for the reason
    /// `first_error`; the environment file at `path` is to be applied.
    ReadFile { path: String, first_error: String },
    /// The environment file was applied; the environment is to be read again.
    Retry,
    /// The configuration was read.
    Loaded(Config),
    /// Loading failed, with this chain of messages.
    Failed(Report),
}

/// What the world outside reports back to the loader.
pub enum ConfigEvent {
    /// The environment was read: the configuration, or why it held none.
    EnvironmentRead(Result<Config, String>),
    /// The environment file was read and its assignments applied, or the
    /// reason it was not.
    FileApplied(Result<(), String>),
}

/// The next step of loading the configuration, given what the step that
/// `state` asked for gave. A first read that fails leads to the environment
/// file of `run_env`; a file that cannot be applied fails with the first
/// reason, "Failed to load .env file." and the file's error, outermost
/// first; a second read that fails fails with "Failed to load config." and
/// its reason. An event that does not answer `state` leaves it as it is.
pub fn config_step(state: ConfigLoad, event: ConfigEvent, run_env: &str) -> (r: ConfigLoad)
    ensures
        match (state, event) {
            (ConfigLoad::Start, ConfigEvent::EnvironmentRead(Ok(c))) => r == ConfigLoad::Loaded(c),
            (ConfigLoad::Start, ConfigEvent::EnvironmentRead(Err(e))) => r matches ConfigLoad::ReadFile {
                path,
                first_error,
            } && path@ == env_file_path_of(run_env@) && first_error@ == e@,
            (ConfigLoad::ReadFile { first_error, .. }, ConfigEvent::FileApplied(Ok(()))) => r
                is Retry,
            (ConfigLoad::ReadFile { first_error, .. }, ConfigEvent::FileApplied(Err(io))) => r matches ConfigLoad::Failed(
                rep,
            ) && rep@ == seq![first_error@, "Failed to load .env file."@, io@],
            (ConfigLoad::Retry, ConfigEvent::EnvironmentRead(Ok(c))) => r == ConfigLoad::Loaded(c),
            (ConfigLoad::Retry, ConfigEvent::EnvironmentRead(Err(e))) => r matches ConfigLoad::Failed(
                rep,
            ) && rep@ == seq!["Failed to load config."@, e@],
            _ => r == state,
        },
{
    match event {
        ConfigEvent::EnvironmentRead(read) => match state {
            ConfigLoad::Start => match read {
                Ok(c) => ConfigLoad::Loaded(c),
                Err(e) => ConfigLoad::ReadFile { path: Config::env_file_path(run_env), first_error: e },
            },
            ConfigLoad::Retry => match read {
                Ok(c) => ConfigLoad::Loaded(c),
                Err(e) => ConfigLoad::Failed(Report::msg(e.as_str()).context("Failed to load config.")),
            },
            other => other,
        },
        ConfigEvent::FileApplied(applied) => match state {
            ConfigLoad::ReadFile { path, first_error } => match applied {
                Ok(()) => ConfigLoad::Retry,
                Err(io) => ConfigLoad::Failed(
                    Report::msg(io.as_str()).context("Failed to load .env file.").context(
                        first_error.as_str(),
                    ),
                ),
            },
            other => other,
        },
    }
}

} // verus!
