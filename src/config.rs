//! The build configuration: compilers described by command templates, and
//! the source paths to compile. Validation of a configuration, and the
//! filling-in of command templates.
use vstd::prelude::*;

verus! {

/// How a file name is put into a command: as is, after a prefix, or in
/// place of the `{}` of a format.
#[derive(Debug, PartialEq, Eq)]
pub enum IoFormat {
    Empty,
    Prefix { prefix: String },
    Format { format: String },
}

/// A compiler: its name, executable and spawn template, how input and
/// output files are passed, and the option strings for the template.
#[derive(Debug, PartialEq, Eq)]
pub struct Compiler {
    pub name: String,
    pub executable: String,
    pub spawn: String,
    pub input: IoFormat,
    pub output: IoFormat,
    pub options: Option<String>,
    pub debug_options: Option<String>,
    pub release_options: Option<String>,
}

/// A named source directory.
#[derive(Debug, PartialEq, Eq)]
pub struct Path {
    pub name: String,
    pub dir: String,
}

/// A build configuration.
#[derive(Debug, PartialEq, Eq)]
pub struct Spvconfig {
    pub target_dir: String,
    pub work_dir: String,
    pub paths: Vec<Path>,
    pub compilers: Option<Vec<Compiler>>,
}

#[derive(Clone, Copy, Debug, PartialEq, Eq, Structural)]
pub enum BuildTarget {
    Debug,
    Release,
}

/// How many times `p` occurs in `s`, matched left to right without overlap.
pub open spec fn occurrences(s: Seq<char>, p: Seq<char>) -> nat
    decreases s.len(),
{
    if p.len() == 0 || s.len() < p.len() {
        0
    } else if s.subrange(0, p.len() as int) == p {
        1 + occurrences(s.subrange(p.len() as int, s.len() as int), p)
    } else {
        occurrences(s.subrange(1, s.len() as int), p)
    }
}

/// `s` with every occurrence of `from`, matched left to right without
/// overlap, replaced by `to`.
pub open spec fn replaced(s: Seq<char>, from: Seq<char>, to: Seq<char>) -> Seq<char>
    decreases s.len(),
{
    if from.len() == 0 || s.len() < from.len() {
        s
    } else if s.subrange(0, from.len() as int) == from {
        to + replaced(s.subrange(from.len() as int, s.len() as int), from, to)
    } else {
        seq![s[0]] + replaced(s.subrange(1, s.len() as int), from, to)
    }
}

/// The decimal digits of `n`.
pub open spec fn decimal(n: nat) -> Seq<char>
    decreases n,
{
    if n < 10 {
        seq![(n + 48) as char]
    } else {
        decimal(n / 10) + seq![((n % 10) + 48) as char]
    }
}

/// Relies on `str::matches` and `Iterator::count`: the matches of a
/// non-empty pattern are found left to right and do not overlap.
#[verifier::external_body]
fn count_matches(data: &str, pattern: &str) -> (r: usize)
    requires
        pattern@.len() > 0,
    ensures
        r == occurrences(data@, pattern@),
{
    data.matches(pattern).count()
}

/// Relies on `str::replace`: every match of a non-empty pattern, found left
/// to right without overlap, is replaced.
#[verifier::external_body]
fn replace_all(data: &str, from: &str, to: &str) -> (r: String)
    requires
        from@.len() > 0,
    ensures
        r@ == replaced(data@, from@, to@),
{
    data.replace(from, to)
}

/// `a` followed by `b`.
fn joined(a: &str, b: &str) -> (r: String)
    ensures
        r@ == a@ + b@,
{
    a.to_owned().concat(b)
}

/// Relies on `usize`'s `Display`: decimal digits, no sign, no leading zero.
#[verifier::external_body]
fn decimal_string(n: usize) -> (r: String)
    ensures
        r@ == decimal(n as nat),
{
    n.to_string()
}

pub open spec fn missing_msg(patt: Seq<char>) -> Seq<char> {
    "missing '"@ + patt + "'"@
}

pub open spec fn multiple_msg(patt: Seq<char>) -> Seq<char> {
    "contains multiple '"@ + patt + "'"@
}

/// The error of a check that `patt` occurs exactly once in `data`.
pub open spec fn single_pattern_error(data: Seq<char>, patt: Seq<char>) -> Option<Seq<char>> {
    let n = occurrences(data, patt);
    if n == 0 {
        Some(missing_msg(patt))
    } else if n == 1 {
        None
    } else {
        Some(multiple_msg(patt))
    }
}

/// The error of a check that `patt` occurs at most once in `data`.
pub open spec fn at_most_one_error(data: Seq<char>, patt: Seq<char>) -> Option<Seq<char>> {
    if occurrences(data, patt) <= 1 {
        None
    } else {
        Some(multiple_msg(patt))
    }
}

/// `r` is `Ok` exactly when `e` is no error, and carries its message otherwise.
pub open spec fn reports(r: Result<(), String>, e: Option<Seq<char>>) -> bool {
    match r {
        Ok(_) => e is None,
        Err(msg) => e == Some(msg@),
    }
}

/// `e` with `prefix` put before its message.
pub open spec fn prefixed(prefix: Seq<char>, e: Option<Seq<char>>) -> Option<Seq<char>> {
    match e {
        Some(m) => Some(prefix + m),
        None => None,
    }
}

/// The first error of two checks made in turn.
pub open spec fn first_error(a: Option<Seq<char>>, b: Option<Seq<char>>) -> Option<Seq<char>> {
    if a is Some {
        a
    } else {
        b
    }
}

fn with_prefix(prefix: &str, r: Result<(), String>) -> (out: Result<(), String>)
    ensures
        match (r, out) {
            (Ok(_), Ok(_)) => true,
            (Err(m), Err(n)) => n@ == prefix@ + m@,
            _ => false,
        },
{
    match r {
        Ok(()) => Ok(()),
        Err(m) => Err(joined(prefix, m.as_str())),
    }
}

fn quoted_message(lead: &str, patt: &str) -> (r: String)
    ensures
        r@ == lead@ + patt@ + "'"@,
{
    let head = joined(lead, patt);
    joined(head.as_str(), "'")
}

fn require_single_pattern(data: &String, patt: &str) -> (r: Result<(), String>)
    requires
        patt@.len() > 0,
    ensures
        reports(r, single_pattern_error(data@, patt@)),
{
    let n = count_matches(data.as_str(), patt);
    if n == 0 {
        Err(quoted_message("missing '", patt))
    } else if n == 1 {
        Ok(())
    } else {
        Err(quoted_message("contains multiple '", patt))
    }
}

fn at_most_one_pattern(data: &String, patt: &str) -> (r: Result<(), String>)
    requires
        patt@.len() > 0,
    ensures
        reports(r, at_most_one_error(data@, patt@)),
{
    if count_matches(data.as_str(), patt) <= 1 {
        Ok(())
    } else {
        Err(quoted_message("contains multiple '", patt))
    }
}

impl IoFormat {
    /// The error of this format, if any: a format must hold `{}` exactly
    /// once, a prefix must not be empty.
    pub open spec fn error(&self) -> Option<Seq<char>> {
        match self {
            IoFormat::Empty => None,
            IoFormat::Prefix { prefix } => if prefix@.len() == 0 {
                Some("prefix is empty"@)
            } else {
                None
            },
            IoFormat::Format { format } => prefixed(
                "format "@,
                single_pattern_error(format@, "{}"@),
            ),
        }
    }

    /// `file_name` put in as this format says.
    pub open spec fn formatted(&self, file_name: Seq<char>) -> Seq<char> {
        match self {
            IoFormat::Empty => file_name,
            IoFormat::Prefix { prefix } => prefix@ + " "@ + file_name,
            IoFormat::Format { format } => replaced(format@, "{}"@, file_name),
        }
    }

    pub fn validate(&self) -> (r: Result<(), String>)
        ensures
            reports(r, self.error()),
    {
        match self {
            IoFormat::Empty => Ok(()),
            IoFormat::Prefix { prefix } => {
                if prefix.as_str().is_empty() {
                    Err("prefix is empty".to_owned())
                } else {
                    Ok(())
                }
            },
            IoFormat::Format { format } => {
                proof {
                    reveal_strlit("{}");
                }
                with_prefix("format ", require_single_pattern(format, "{}"))
            },
        }
    }

    pub fn format(&self, file_name: &str) -> (r: String)
        ensures
            r@ == self.formatted(file_name@),
    {
        match self {
            IoFormat::Empty => file_name.to_owned(),
            IoFormat::Prefix { prefix } => {
                let head = joined(prefix.as_str(), " ");
                joined(head.as_str(), file_name)
            },
            IoFormat::Format { format } => {
                proof {
                    reveal_strlit("{}");
                }
                replace_all(format.as_str(), "{}", file_name)
            },
        }
    }

    fn duplicate(&self) -> (r: IoFormat)
        ensures
            r == *self,
    {
        match self {
            IoFormat::Empty => IoFormat::Empty,
            IoFormat::Prefix { prefix } => IoFormat::Prefix { prefix: prefix.clone() },
            IoFormat::Format { format } => IoFormat::Format { format: format.clone() },
        }
    }
}

/// The error of a spawn template: it must not be empty, must hold
/// `{input}` and `{output}` once each, and each option slot at most once.
pub open spec fn spawn_error(spawn: Seq<char>) -> Option<Seq<char>> {
    if spawn.len() == 0 {
        Some("spawn "@ + "is_empty"@)
    } else {
        prefixed(
            "spawn "@,
            first_error(
                single_pattern_error(spawn, "{input}"@),
                first_error(
                    single_pattern_error(spawn, "{output}"@),
                    first_error(
                        at_most_one_error(spawn, "{options}"@),
                        first_error(
                            at_most_one_error(spawn, "{debug_options}"@),
                            at_most_one_error(spawn, "{release_options}"@),
                        ),
                    ),
                ),
            ),
        )
    }
}

fn spawn_err(msg: String) -> (r: String)
    ensures
        r@ == "spawn "@ + msg@,
{
    joined("spawn ", msg.as_str())
}

fn check_spawn(spawn: &String) -> (r: Result<(), String>)
    ensures
        reports(r, spawn_error(spawn@)),
{
    if spawn.as_str().is_empty() {
        return Err(spawn_err("is_empty".to_owned()));
    }
    proof {
        reveal_strlit("{input}");
        reveal_strlit("{output}");
        reveal_strlit("{options}");
        reveal_strlit("{debug_options}");
        reveal_strlit("{release_options}");
    }
    if let Err(e) = require_single_pattern(spawn, "{input}") {
        return Err(spawn_err(e));
    }
    if let Err(e) = require_single_pattern(spawn, "{output}") {
        return Err(spawn_err(e));
    }
    if let Err(e) = at_most_one_pattern(spawn, "{options}") {
        return Err(spawn_err(e));
    }
    if let Err(e) = at_most_one_pattern(spawn, "{debug_options}") {
        return Err(spawn_err(e));
    }
    if let Err(e) = at_most_one_pattern(spawn, "{release_options}") {
        return Err(spawn_err(e));
    }
    Ok(())
}

/// An option string, empty when absent.
pub open spec fn option_text(opt: Option<String>) -> Seq<char> {
    match opt {
        Some(s) => s@,
        None => Seq::empty(),
    }
}

fn spawn_option(opt: &Option<String>) -> (r: String)
    ensures
        r@ == option_text(*opt),
{
    match opt {
        Some(s) => s.clone(),
        None => String::new(),
    }
}

impl Compiler {
    /// The spawn template with the option slots of `target` filled in.
    pub open spec fn prepared_spawn(&self, target: BuildTarget) -> Seq<char> {
        let chosen = match target {
            BuildTarget::Debug => replaced(
                self.spawn@,
                "{debug_options}"@,
                option_text(self.debug_options),
            ),
            BuildTarget::Release => replaced(
                self.spawn@,
                "{release_options}"@,
                option_text(self.release_options),
            ),
        };
        replaced(chosen, "{options}"@, option_text(self.options))
    }

    /// The error of this compiler: a name and an executable are required,
    /// the spawn template and both file formats must be valid.
    pub open spec fn error(&self) -> Option<Seq<char>> {
        if self.name@.len() == 0 {
            Some("compiler has empty name"@)
        } else {
            prefixed(
                "compiler "@ + self.name@ + " "@,
                if self.executable@.len() == 0 {
                    Some("has empty executable"@)
                } else {
                    first_error(
                        spawn_error(self.spawn@),
                        first_error(self.input.error(), self.output.error()),
                    )
                },
            )
        }
    }

    fn err(&self, msg: &str) -> (r: String)
        ensures
            r@ == "compiler "@ + self.name@ + " "@ + msg@,
    {
        let head = joined("compiler ", self.name.as_str());
        let lead = joined(head.as_str(), " ");
        joined(lead.as_str(), msg)
    }

    fn prepare_spawn(&self, target: BuildTarget) -> (r: String)
        ensures
            r@ == self.prepared_spawn(target),
    {
        proof {
            reveal_strlit("{debug_options}");
            reveal_strlit("{release_options}");
            reveal_strlit("{options}");
        }
        let chosen = match target {
            BuildTarget::Debug => {
                let opt = spawn_option(&self.debug_options);
                replace_all(self.spawn.as_str(), "{debug_options}", opt.as_str())
            },
            BuildTarget::Release => {
                let opt = spawn_option(&self.release_options);
                replace_all(self.spawn.as_str(), "{release_options}", opt.as_str())
            },
        };
        let opt = spawn_option(&self.options);
        replace_all(chosen.as_str(), "{options}", opt.as_str())
    }

    pub fn validate(&self) -> (r: Result<(), String>)
        ensures
            reports(r, self.error()),
    {
        if self.name.as_str().is_empty() {
            return Err("compiler has empty name".to_owned());
        }
        if self.executable.as_str().is_empty() {
            return Err(self.err("has empty executable"));
        }
        if let Err(e) = check_spawn(&self.spawn) {
            return Err(self.err(e.as_str()));
        }
        if let Err(e) = self.input.validate() {
            return Err(self.err(e.as_str()));
        }
        if let Err(e) = self.output.validate() {
            return Err(self.err(e.as_str()));
        }
        Ok(())
    }

    /// This compiler for `target`: the option slots filled into the spawn
    /// template, the option strings dropped.
    pub fn prepare(&self, target: BuildTarget) -> (r: Compiler)
        ensures
            r.executable == self.executable,
            r.input == self.input,
            r.name == self.name,
            r.output == self.output,
            r.spawn@ == self.prepared_spawn(target),
            r.options is None,
            r.debug_options is None,
            r.release_options is None,
    {
        Compiler {
            executable: self.executable.clone(),
            input: self.input.duplicate(),
            name: self.name.clone(),
            output: self.output.duplicate(),
            spawn: self.prepare_spawn(target),
            debug_options: None,
            options: None,
            release_options: None,
        }
    }

    /// The command for one file: `{input}` and `{output}` of the spawn
    /// template replaced by the formatted file names.
    pub fn format(&self, input_file: &str, output_file: &str) -> (r: String)
        ensures
            r@ == replaced(
                replaced(self.spawn@, "{input}"@, self.input.formatted(input_file@)),
                "{output}"@,
                self.output.formatted(output_file@),
            ),
    {
        proof {
            reveal_strlit("{input}");
            reveal_strlit("{output}");
        }
        let input = self.input.format(input_file);
        let output = self.output.format(output_file);
        let with_input = replace_all(self.spawn.as_str(), "{input}", input.as_str());
        replace_all(with_input.as_str(), "{output}", output.as_str())
    }
}

impl Path {
    /// The error of this path: a name and a directory are required.
    pub open spec fn error(&self) -> Option<Seq<char>> {
        if self.name@.len() == 0 {
            Some("has empty name"@)
        } else if self.dir@.len() == 0 {
            Some("has empty directory"@)
        } else {
            None
        }
    }

    pub fn validate(&self) -> (r: Result<(), String>)
        ensures
            reports(r, self.error()),
    {
        if self.name.as_str().is_empty() {
            Err("has empty name".to_owned())
        } else if self.dir.as_str().is_empty() {
            Err("has empty directory".to_owned())
        } else {
            Ok(())
        }
    }
}

/// The first index before `i` whose path has the name of path `i`.
pub open spec fn first_same_name(paths: Seq<Path>, i: int) -> Option<int> {
    if exists|j: int| 0 <= j < i && paths[j].name@ == paths[i].name@ {
        Some(choose|j: int| 0 <= j < i && paths[j].name@ == paths[i].name@ && forall|l: int| 0 <= l < j ==> paths[l].name@ != paths[i].name@)
    } else {
        None
    }
}

/// The error of path `i` in the list: its own error, or the name of an
/// earlier path.
pub open spec fn path_error_at(paths: Seq<Path>, i: int) -> Option<Seq<char>> {
    match paths[i].error() {
        Some(e) => Some("path "@ + decimal(i as nat) + " "@ + e),
        None => match first_same_name(paths, i) {
            Some(j) => Some(
                "paths "@ + decimal(i as nat) + " and "@ + decimal(j as nat)
                    + " both uses the same name "@ + paths[i].name@,
            ),
            None => None,
        },
    }
}

/// The first error among paths `i` on.
pub open spec fn paths_error_from(paths: Seq<Path>, i: int) -> Option<Seq<char>>
    decreases paths.len() - i,
{
    if i < 0 || i >= paths.len() {
        None
    } else {
        first_error(path_error_at(paths, i), paths_error_from(paths, i + 1))
    }
}

/// The error of a path list: it must not be empty, each path must be
/// valid and no two may share a name; the first failing path is reported.
pub open spec fn paths_error(paths: Seq<Path>) -> Option<Seq<char>> {
    if paths.len() == 0 {
        Some("there's no paths listed"@)
    } else {
        paths_error_from(paths, 0)
    }
}

// The earlier names are scanned: vstd's map contracts hold only for keys
// that obey its key model, which `String` is not shown to do.
fn find_same_name(paths: &Vec<Path>, i: usize) -> (r: Option<usize>)
    requires
        i < paths@.len(),
    ensures
        match r {
            Some(j) => first_same_name(paths@, i as int) == Some(j as int),
            None => first_same_name(paths@, i as int) is None,
        },
{
    let mut j: usize = 0;
    while j < i
        invariant
            j <= i < paths@.len(),
            forall|l: int| 0 <= l < j ==> paths@[l].name@ != paths@[i as int].name@,
        decreases i - j,
    {
        if paths[j].name == paths[i].name {
            proof {
                let ps = paths@;
                assert(exists|k: int| 0 <= k < i && ps[k].name@ == ps[i as int].name@);
                let c = choose|k: int|
                    0 <= k < i && ps[k].name@ == ps[i as int].name@ && forall|l: int|
                        0 <= l < k ==> ps[l].name@ != ps[i as int].name@;
                assert(c == j as int) by {
                    if c < j {
                    } else if c > j {
                        assert(ps[j as int].name@ == ps[i as int].name@);
                    }
                }
            }
            return Some(j);
        }
        j = j + 1;
    }
    None
}

fn validate_paths(paths: &Vec<Path>) -> (r: Result<(), String>)
    ensures
        reports(r, paths_error(paths@)),
{
    if paths.len() == 0 {
        return Err("there's no paths listed".to_owned());
    }
    let mut idx: usize = 0;
    while idx < paths.len()
        invariant
            idx <= paths@.len(),
            paths@.len() > 0,
            paths_error(paths@) == paths_error_from(paths@, idx as int),
        decreases paths.len() - idx,
    {
        if let Err(e) = paths[idx].validate() {
            let head = joined("path ", decimal_string(idx).as_str());
            let lead = joined(head.as_str(), " ");
            return Err(joined(lead.as_str(), e.as_str()));
        }
        if let Some(idx2) = find_same_name(paths, idx) {
            let a = joined("paths ", decimal_string(idx).as_str());
            let b = joined(a.as_str(), " and ");
            let c = joined(b.as_str(), decimal_string(idx2).as_str());
            let d = joined(c.as_str(), " both uses the same name ");
            return Err(joined(d.as_str(), paths[idx].name.as_str()));
        }
        idx = idx + 1;
    }
    Ok(())
}

impl Spvconfig {
    /// The error of this configuration: both directories are required, the
    /// path list must be valid, then each compiler in turn.
    pub open spec fn error(&self) -> Option<Seq<char>> {
        if self.target_dir@.len() == 0 {
            Some("'target_dir' is empty"@)
        } else if self.work_dir@.len() == 0 {
            Some("'work_dir' is empty"@)
        } else {
            first_error(
                paths_error(self.paths@),
                match self.compilers {
                    Some(cs) => compilers_error_from(cs@, 0),
                    None => None,
                },
            )
        }
    }

    pub fn validate(&self) -> (r: Result<(), String>)
        ensures
            reports(r, self.error()),
    {
        if self.target_dir.as_str().is_empty() {
            return Err("'target_dir' is empty".to_owned());
        }
        if self.work_dir.as_str().is_empty() {
            return Err("'work_dir' is empty".to_owned());
        }
        if let Err(e) = validate_paths(&self.paths) {
            return Err(e);
        }
        if let Some(comps) = &self.compilers {
            let mut i: usize = 0;
            while i < comps.len()
                invariant
                    i <= comps@.len(),
                    self.error() == compilers_error_from(comps@, i as int),
                decreases comps.len() - i,
            {
                assert(compilers_error_from(comps@, i as int) == first_error(
                    comps@[i as int].error(),
                    compilers_error_from(comps@, i + 1),
                ));
                if let Err(e) = comps[i].validate() {
                    return Err(e);
                }
                i = i + 1;
            }
        }
        Ok(())
    }
}

/// The first error among compilers `i` on.
pub open spec fn compilers_error_from(cs: Seq<Compiler>, i: int) -> Option<Seq<char>>
    decreases cs.len() - i,
{
    if i < 0 || i >= cs.len() {
        None
    } else {
        first_error(cs[i].error(), compilers_error_from(cs, i + 1))
    }
}

} // verus!
