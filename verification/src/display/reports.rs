//! Table and plain renderings of configuration, dependency, Git and error
//! responses, and the choice of rendering for a whole response.

use crate::display::colors;
use crate::display::formatters::{
    services_table_text, status_displayable, status_plain_text, status_table_text, byte_len, chars_string, column_width, heading, name_lines, nl, owned_string, push_colored_state,
    push_heading, push_line, push_name_lines, push_opt_line, push_row, state_colored, yes_no,
    opt_line,
};
use crate::display::utils::{
    byte_prefix, colorize, colorized, cut_ok, format_commit_hash, format_timestamp,
    row_text, separator_text, status_color, write_table_separator,
};
use crate::display::{DisplayOptions, OutputFormat};
use crate::git::types::strings_view;
use crate::protocol::{
    format_name, service_ref_text, CommandPayload, DependencyInfo, ErrorPayload, GitCommitInfo,
    GitListBranchesResponse, GitLogResponse, ListDependenciesResponse, ListServicesResponse,
    RepoStatus, ServiceConfigPayload, ServiceInfo,
};
use crate::text::{
    all_digits, chars_of, contains_seq, decimal, lemma_decimal_digits, lines, lines_of, occurs_at,
    push_all, push_str, split, string_of, u64_to_chars, views,
};
use vstd::prelude::*;
use vstd::utf8::*;

verus! {

broadcast use vstd::string::group_string_axioms;

// ---------------------------------------------------------------------------
// Service configuration
// ---------------------------------------------------------------------------

/// The table rendering of a service configuration.
pub open spec fn config_table_text(c: ServiceConfigPayload, o: DisplayOptions) -> Seq<char> {
    (if o.no_headers {
        Seq::empty()
    } else {
        heading("Service Configuration"@, 50, o)
    }) + "Service: "@ + service_ref_text(c.service) + nl() + "Config File: "@ + c.filename@ + nl()
        + "Format: "@ + format_name(c.format) + nl() + "Run Command: "@ + c.run_command@ + nl()
}

/// The plain rendering of a service configuration.
pub open spec fn config_plain_text(c: ServiceConfigPayload) -> Seq<char> {
    service_ref_text(c.service) + ": "@ + c.run_command@ + " ("@ + c.filename@ + ")"@ + nl()
}

impl ServiceConfigPayload {
    /// The table rendering: a heading unless headers are off, then one line
    /// per field.
    pub fn display_table(&self, options: &DisplayOptions) -> (r: String)
        ensures
            r@ == config_table_text(*self, *options),
    {
        let mut v: Vec<char> = Vec::new();
        if !options.no_headers {
            push_heading(&mut v, "Service Configuration", 50, options);
        }
        push_str(&mut v, "Service: ");
        let sr = self.service.text();
        push_line(&mut v, sr.as_str());
        push_str(&mut v, "Config File: ");
        push_line(&mut v, self.filename.as_str());
        push_str(&mut v, "Format: ");
        push_line(&mut v, self.format.name());
        push_str(&mut v, "Run Command: ");
        push_line(&mut v, self.run_command.as_str());
        assert(v@ =~= config_table_text(*self, *options));
        string_of(v.as_slice())
    }

    /// The plain rendering: `service: command (file)`.
    pub fn display_plain(&self, options: &DisplayOptions) -> (r: String)
        ensures
            r@ == config_plain_text(*self),
    {
        let mut v: Vec<char> = Vec::new();
        let sr = self.service.text();
        push_str(&mut v, sr.as_str());
        push_str(&mut v, ": ");
        push_str(&mut v, self.run_command.as_str());
        push_str(&mut v, " (");
        push_str(&mut v, self.filename.as_str());
        push_line(&mut v, ")");
        assert(v@ =~= config_plain_text(*self));
        string_of(v.as_slice())
    }
}

// ---------------------------------------------------------------------------
// Dependencies
// ---------------------------------------------------------------------------

/// The widths of the dependency list columns.
pub open spec fn dependency_widths(ds: Seq<DependencyInfo>) -> Seq<usize> {
    seq![column_width(ds.map_values(|d: DependencyInfo| byte_len(d.name)), 4) as usize, 8usize, 7usize]
}

/// The table row of one dependency.
pub open spec fn dependency_row(d: DependencyInfo, widths: Seq<usize>, color: bool) -> Seq<char> {
    row_text(
        seq![
            d.name@,
            state_colored(d.state, color),
            if d.tunnel_enabled {
                "Yes"@
            } else {
                "No"@
            },
        ],
        widths,
    )
}

/// The table rows of the dependencies.
pub open spec fn dependency_rows(ds: Seq<DependencyInfo>, widths: Seq<usize>, color: bool) -> Seq<
    char,
>
    decreases ds.len(),
{
    if ds.len() == 0 {
        Seq::empty()
    } else {
        dependency_rows(ds.drop_last(), widths, color) + dependency_row(ds.last(), widths, color)
    }
}

/// The table rendering of the dependencies of a service.
pub open spec fn dependencies_table_text(l: ListDependenciesResponse, o: DisplayOptions) -> Seq<
    char,
> {
    let ds = l.dependencies@;
    if ds.len() == 0 {
        "No dependencies found for service '"@ + l.service_name@ + "'"@ + nl()
    } else {
        let w = dependency_widths(ds);
        (if o.no_headers {
            Seq::empty()
        } else {
            colorized("Service"@, colors::BOLD@, o.color) + " Dependencies for '"@ + l.service_name@
                + "'"@ + nl() + separator_text(seq![50usize], o.color) + row_text(
                seq!["NAME"@, "STATUS"@, "TUNNEL"@],
                w,
            ) + separator_text(w, o.color)
        }) + dependency_rows(ds, w, o.color)
    }
}

impl ListDependenciesResponse {
    fn widths(&self) -> (r: Vec<usize>)
        ensures
            r@ == dependency_widths(self.dependencies@),
    {
        let ghost ds = self.dependencies@;
        let ghost nlens = ds.map_values(|d: DependencyInfo| byte_len(d.name));
        let mut nw: usize = 4;
        let mut i: usize = 0;
        while i < self.dependencies.len()
            invariant
                i <= ds.len(),
                ds == self.dependencies@,
                nlens == ds.map_values(|d: DependencyInfo| byte_len(d.name)),
                nw == column_width(nlens.take(i as int), 4),
            decreases ds.len() - i,
        {
            let b = self.dependencies[i].name.as_str().as_bytes().len();
            proof {
                assert(nlens.take(i + 1).drop_last() =~= nlens.take(i as int));
                assert(nlens.take(i + 1).last() == b);
            }
            if b > nw {
                nw = b;
            }
            i = i + 1;
        }
        assert(nlens.take(ds.len() as int) =~= nlens);
        let mut w: Vec<usize> = Vec::new();
        w.push(nw);
        w.push(8);
        w.push(7);
        assert(w@ =~= dependency_widths(ds));
        w
    }

    /// The table rendering: a row per dependency under a heading, or a note
    /// when there is none.
    pub fn display_table(&self, options: &DisplayOptions) -> (r: String)
        ensures
            r@ == dependencies_table_text(*self, *options),
    {
        let mut v: Vec<char> = Vec::new();
        if self.dependencies.len() == 0 {
            push_str(&mut v, "No dependencies found for service '");
            push_str(&mut v, self.service_name.as_str());
            push_line(&mut v, "'");
            assert(v@ =~= dependencies_table_text(*self, *options));
            return string_of(v.as_slice());
        }
        let widths = self.widths();
        if !options.no_headers {
            let t = colorize("Service", colors::BOLD, options);
            push_str(&mut v, t.as_str());
            push_str(&mut v, " Dependencies for '");
            push_str(&mut v, self.service_name.as_str());
            push_line(&mut v, "'");
            let mut w50: Vec<usize> = Vec::new();
            w50.push(50);
            assert(w50@ =~= seq![50usize]);
            let sep50 = write_table_separator(&w50, options);
            push_str(&mut v, sep50.as_str());
            let mut h: Vec<String> = Vec::new();
            h.push(owned_string("NAME"));
            h.push(owned_string("STATUS"));
            h.push(owned_string("TUNNEL"));
            assert(strings_view(h@) =~= seq!["NAME"@, "STATUS"@, "TUNNEL"@]);
            push_row(&mut v, h, &widths, options);
            let sep = write_table_separator(&widths, options);
            push_str(&mut v, sep.as_str());
        }
        let ghost head = v@;
        let ghost ds = self.dependencies@;
        let mut i: usize = 0;
        while i < self.dependencies.len()
            invariant
                i <= ds.len(),
                ds == self.dependencies@,
                widths@ == dependency_widths(ds),
                v@ == head + dependency_rows(ds.take(i as int), widths@, options.color),
            decreases ds.len() - i,
        {
            let d = &self.dependencies[i];
            let st = colorize(d.state.name(), status_color(d.state.name()), options);
            let mut cols: Vec<String> = Vec::new();
            cols.push(owned_string(d.name.as_str()));
            cols.push(st);
            cols.push(owned_string(yes_no(d.tunnel_enabled)));
            proof {
                assert(strings_view(cols@) =~= seq![
                    d.name@,
                    state_colored(d.state, options.color),
                    if d.tunnel_enabled {
                        "Yes"@
                    } else {
                        "No"@
                    },
                ]);
                let t = ds.take(i + 1);
                assert(t.drop_last() =~= ds.take(i as int));
                assert(t.last() == ds[i as int]);
            }
            push_row(&mut v, cols, &widths, options);
            i = i + 1;
        }
        assert(ds.take(ds.len() as int) =~= ds);
        proof {
            if options.no_headers {
                assert(head =~= Seq::<char>::empty());
            }
            assert(v@ =~= dependencies_table_text(*self, *options));
        }
        string_of(v.as_slice())
    }

    /// The plain rendering: one dependency name per line.
    pub fn display_plain(&self, options: &DisplayOptions) -> (r: String)
        ensures
            r@ == name_lines(self.dependencies@.map_values(|d: DependencyInfo| d.name@)),
    {
        let mut v: Vec<char> = Vec::new();
        let ghost ds = self.dependencies@;
        let mut i: usize = 0;
        while i < self.dependencies.len()
            invariant
                i <= ds.len(),
                ds == self.dependencies@,
                v@ == name_lines(ds.take(i as int).map_values(|d: DependencyInfo| d.name@)),
            decreases ds.len() - i,
        {
            push_line(&mut v, self.dependencies[i].name.as_str());
            proof {
                let a = ds.take(i + 1).map_values(|d: DependencyInfo| d.name@);
                assert(a.drop_last() =~= ds.take(i as int).map_values(|d: DependencyInfo| d.name@));
            }
            i = i + 1;
        }
        assert(ds.take(ds.len() as int) =~= ds);
        string_of(v.as_slice())
    }
}

// ---------------------------------------------------------------------------
// Branches
// ---------------------------------------------------------------------------

/// The table rendering of a branch list.
pub open spec fn branches_table_text(l: GitListBranchesResponse, o: DisplayOptions) -> Seq<char> {
    if l.branches@.len() == 0 {
        "No branches found"@ + nl()
    } else {
        (if o.no_headers {
            Seq::empty()
        } else {
            heading("Branches"@, 30, o)
        }) + name_lines(strings_view(l.branches@))
    }
}

impl GitListBranchesResponse {
    /// The table rendering: the branches one per line under a heading, or a
    /// note when there is none.
    pub fn display_table(&self, options: &DisplayOptions) -> (r: String)
        ensures
            r@ == branches_table_text(*self, *options),
    {
        let mut v: Vec<char> = Vec::new();
        if self.branches.len() == 0 {
            push_line(&mut v, "No branches found");
            assert(v@ =~= branches_table_text(*self, *options));
            return string_of(v.as_slice());
        }
        if !options.no_headers {
            push_heading(&mut v, "Branches", 30, options);
        }
        push_name_lines(&mut v, &self.branches);
        assert(v@ =~= branches_table_text(*self, *options));
        string_of(v.as_slice())
    }

    /// The plain rendering: one branch per line.
    pub fn display_plain(&self, options: &DisplayOptions) -> (r: String)
        ensures
            r@ == name_lines(strings_view(self.branches@)),
    {
        let mut v: Vec<char> = Vec::new();
        push_name_lines(&mut v, &self.branches);
        assert(v@ =~= name_lines(strings_view(self.branches@)));
        string_of(v.as_slice())
    }
}

// ---------------------------------------------------------------------------
// Errors
// ---------------------------------------------------------------------------

/// The table rendering of an error; details and code only when verbose.
pub open spec fn error_table_text(e: ErrorPayload, o: DisplayOptions) -> Seq<char> {
    colorized("Error"@, colors::BRIGHT_RED@, o.color) + ": "@ + e.message@ + nl() + (if o.verbose {
        opt_line("Details: "@, e.details) + "Error Code: "@ + decimal(e.code as nat) + nl()
    } else {
        Seq::empty()
    })
}

impl ErrorPayload {
    /// The table rendering: the message, and when verbose the details and code.
    pub fn display_table(&self, options: &DisplayOptions) -> (r: String)
        ensures
            r@ == error_table_text(*self, *options),
    {
        let mut v: Vec<char> = Vec::new();
        let e = colorize("Error", colors::BRIGHT_RED, options);
        push_str(&mut v, e.as_str());
        push_str(&mut v, ": ");
        push_line(&mut v, self.message.as_str());
        if options.verbose {
            push_opt_line(&mut v, "Details: ", &self.details);
            push_str(&mut v, "Error Code: ");
            let d = u64_to_chars(self.code as u64);
            push_all(&mut v, d.as_slice());
            push_str(&mut v, "\n");
        }
        assert(v@ =~= error_table_text(*self, *options));
        string_of(v.as_slice())
    }

    /// The plain rendering: `Error: message`.
    pub fn display_plain(&self, options: &DisplayOptions) -> (r: String)
        ensures
            r@ == "Error: "@ + self.message@ + nl(),
    {
        let mut v: Vec<char> = Vec::new();
        push_str(&mut v, "Error: ");
        push_line(&mut v, self.message.as_str());
        string_of(v.as_slice())
    }
}

// ---------------------------------------------------------------------------
// Commit log
// ---------------------------------------------------------------------------

/// Lines indented by two spaces.
pub open spec fn indented_lines(ls: Seq<Seq<char>>) -> Seq<char>
    decreases ls.len(),
{
    if ls.len() == 0 {
        Seq::empty()
    } else {
        indented_lines(ls.drop_last()) + "  "@ + ls.last() + nl()
    }
}

/// The entry of one commit in the log table: hash, author and date, then the
/// subject, or when verbose the e-mail, the full hash and the whole message.
pub open spec fn commit_text(c: GitCommitInfo, o: DisplayOptions) -> Seq<char> {
    colorized(c.short_hash@, colors::YELLOW@, o.color) + " "@ + colorized(
        c.author_name@,
        colors::CYAN@,
        o.color,
    ) + " "@ + split(c.timestamp@, "T"@)[0] + nl() + (if o.verbose {
        "  Email: "@ + c.author_email@ + nl() + "  Full hash: "@ + c.hash@ + nl() + indented_lines(
            lines(c.full_message@),
        )
    } else {
        "  "@ + c.message@ + nl()
    })
}

/// The entries of the commits, separated by empty lines.
pub open spec fn commit_entries(cs: Seq<GitCommitInfo>, o: DisplayOptions) -> Seq<char>
    decreases cs.len(),
{
    if cs.len() == 0 {
        Seq::empty()
    } else {
        commit_entries(cs.drop_last(), o) + (if cs.len() > 1 {
            nl()
        } else {
            Seq::empty()
        }) + commit_text(cs.last(), o)
    }
}

/// The table rendering of a commit log.
pub open spec fn log_table_text(l: GitLogResponse, o: DisplayOptions) -> Seq<char> {
    if l.commits@.len() == 0 {
        "No commits found"@ + nl()
    } else {
        commit_entries(l.commits@, o)
    }
}

/// The plain rendering of a commit log: short hash and subject per line.
pub open spec fn log_plain_text(cs: Seq<GitCommitInfo>) -> Seq<char>
    decreases cs.len(),
{
    if cs.len() == 0 {
        Seq::empty()
    } else {
        log_plain_text(cs.drop_last()) + cs.last().short_hash@ + " "@ + cs.last().message@ + nl()
    }
}

fn push_indented_lines(v: &mut Vec<char>, ls: &Vec<Vec<char>>)
    ensures
        final(v)@ == old(v)@ + indented_lines(views(ls@)),
{
    let ghost vs = views(ls@);
    let mut i: usize = 0;
    while i < ls.len()
        invariant
            i <= ls@.len(),
            vs == views(ls@),
            v@ == old(v)@ + indented_lines(vs.take(i as int)),
        decreases ls@.len() - i,
    {
        push_str(v, "  ");
        push_all(v, ls[i].as_slice());
        push_str(v, "\n");
        proof {
            let t = vs.take(i + 1);
            assert(t.drop_last() =~= vs.take(i as int));
        }
        i = i + 1;
    }
    assert(vs.take(ls@.len() as int) =~= vs);
}

fn push_commit(v: &mut Vec<char>, c: &GitCommitInfo, options: &DisplayOptions)
    ensures
        final(v)@ == old(v)@ + commit_text(*c, *options),
{
    let h = colorize(c.short_hash.as_str(), colors::YELLOW, options);
    let a = colorize(c.author_name.as_str(), colors::CYAN, options);
    let d = format_timestamp(c.timestamp.as_str());
    push_str(v, h.as_str());
    push_str(v, " ");
    push_str(v, a.as_str());
    push_str(v, " ");
    push_line(v, d.as_str());
    if options.verbose {
        push_str(v, "  Email: ");
        push_line(v, c.author_email.as_str());
        push_str(v, "  Full hash: ");
        push_line(v, c.hash.as_str());
        let m = chars_of(c.full_message.as_str());
        let ls = lines_of(m.as_slice());
        push_indented_lines(v, &ls);
    } else {
        push_str(v, "  ");
        push_line(v, c.message.as_str());
    }
    assert(v@ =~= old(v)@ + commit_text(*c, *options));
}

impl GitLogResponse {
    /// The table rendering: an entry per commit, separated by empty lines, or
    /// a note when there is none.
    pub fn display_table(&self, options: &DisplayOptions) -> (r: String)
        ensures
            r@ == log_table_text(*self, *options),
    {
        let mut v: Vec<char> = Vec::new();
        if self.commits.len() == 0 {
            push_line(&mut v, "No commits found");
            assert(v@ =~= log_table_text(*self, *options));
            return string_of(v.as_slice());
        }
        let ghost cs = self.commits@;
        let mut i: usize = 0;
        while i < self.commits.len()
            invariant
                i <= cs.len(),
                cs == self.commits@,
                v@ == commit_entries(cs.take(i as int), *options),
            decreases cs.len() - i,
        {
            if i > 0 {
                push_str(&mut v, "\n");
            }
            push_commit(&mut v, &self.commits[i], options);
            proof {
                let t = cs.take(i + 1);
                assert(t.drop_last() =~= cs.take(i as int));
                assert(t.last() == cs[i as int]);
                assert(v@ =~= commit_entries(t, *options));
            }
            i = i + 1;
        }
        assert(cs.take(cs.len() as int) =~= cs);
        string_of(v.as_slice())
    }

    /// The plain rendering: short hash and subject, one commit per line.
    pub fn display_plain(&self, options: &DisplayOptions) -> (r: String)
        ensures
            r@ == log_plain_text(self.commits@),
    {
        let mut v: Vec<char> = Vec::new();
        let ghost cs = self.commits@;
        let mut i: usize = 0;
        while i < self.commits.len()
            invariant
                i <= cs.len(),
                cs == self.commits@,
                v@ == log_plain_text(cs.take(i as int)),
            decreases cs.len() - i,
        {
            let c = &self.commits[i];
            push_str(&mut v, c.short_hash.as_str());
            push_str(&mut v, " ");
            push_line(&mut v, c.message.as_str());
            proof {
                let t = cs.take(i + 1);
                assert(t.drop_last() =~= cs.take(i as int));
                assert(t.last() == cs[i as int]);
                assert(v@ =~= log_plain_text(t));
            }
            i = i + 1;
        }
        assert(cs.take(cs.len() as int) =~= cs);
        string_of(v.as_slice())
    }
}

// ---------------------------------------------------------------------------
// Repository status
// ---------------------------------------------------------------------------

/// Whether the current commit of a repository status can be shortened for
/// display: seven bytes or fewer, or cut at a character boundary.
pub open spec fn repo_status_displayable(s: RepoStatus) -> bool {
    encode_utf8(s.current_commit@).len() > 7 ==> cut_ok(s.current_commit@, 7)
}

/// The commit hash as the status table shows it: its first seven bytes.
pub open spec fn shown_commit(h: Seq<char>) -> Seq<char> {
    if encode_utf8(h).len() > 7 {
        byte_prefix(h, 7)
    } else {
        h
    }
}

/// The line on how far the branch is from its upstream, when both counts are known.
pub open spec fn sync_line(ahead: Option<usize>, behind: Option<usize>, color: bool) -> Seq<char> {
    match (ahead, behind) {
        (Some(a), Some(b)) => if a > 0 || b > 0 {
            "Sync Status: "@ + decimal(a as nat) + " ahead, "@ + decimal(b as nat) + " behind"@ + nl()
        } else {
            "Sync Status: "@ + colorized("Up to date"@, colors::GREEN@, color) + nl()
        },
        _ => Seq::empty(),
    }
}

/// The table rendering of a repository status.
pub open spec fn repo_table_text(s: RepoStatus, o: DisplayOptions) -> Seq<char> {
    (if o.no_headers {
        Seq::empty()
    } else {
        heading("Repository Status"@, 50, o)
    }) + "Remote URL: "@ + s.remote_url@ + nl() + "Current Commit: "@ + shown_commit(
        s.current_commit@,
    ) + nl() + opt_line("Current Branch: "@, s.current_branch) + "Working Directory: "@
        + (if s.is_dirty {
        colorized("Modified"@, colors::YELLOW@, o.color)
    } else {
        colorized("Clean"@, colors::GREEN@, o.color)
    }) + nl() + sync_line(s.ahead_count, s.behind_count, o.color) + (if o.verbose
        && s.branches@.len() > 0 {
        nl() + colorized("Available Branches"@, colors::BOLD@, o.color) + nl() + indented_lines(
            strings_view(s.branches@),
        )
    } else {
        Seq::empty()
    })
}

/// The plain rendering of a repository status: `branch (clean)` or
/// `detached (modified)` and the like.
pub open spec fn repo_plain_text(s: RepoStatus) -> Seq<char> {
    (match s.current_branch {
        Some(b) => b@,
        None => "detached"@,
    }) + " ("@ + (if s.is_dirty {
        "modified"@
    } else {
        "clean"@
    }) + ")"@ + nl()
}

fn push_sync_line(v: &mut Vec<char>, ahead: Option<usize>, behind: Option<usize>, options: &DisplayOptions)
    ensures
        final(v)@ == old(v)@ + sync_line(ahead, behind, options.color),
{
    match (ahead, behind) {
        (Some(a), Some(b)) => {
            if a > 0 || b > 0 {
                push_str(v, "Sync Status: ");
                push_all(v, u64_to_chars(a as u64).as_slice());
                push_str(v, " ahead, ");
                push_all(v, u64_to_chars(b as u64).as_slice());
                push_line(v, " behind");
            } else {
                push_str(v, "Sync Status: ");
                let u = colorize("Up to date", colors::GREEN, options);
                push_line(v, u.as_str());
            }
        },
        _ => {},
    }
    assert(v@ =~= old(v)@ + sync_line(ahead, behind, options.color));
}

proof fn lemma_concat_lacks(s: Seq<char>, t: Seq<char>, c: char)
    requires
        forall|j: int| 0 <= j < s.len() ==> s[j] != c,
        forall|j: int| 0 <= j < t.len() ==> t[j] != c,
    ensures
        forall|j: int| 0 <= j < (s + t).len() ==> (s + t)[j] != c,
{
    assert forall|j: int| 0 <= j < (s + t).len() implies (s + t)[j] != c by {
        if j >= s.len() {
            assert((s + t)[j] == t[j - s.len()]);
        }
    }
}

proof fn lemma_digits_lack_u(d: Seq<char>)
    requires
        all_digits(d),
    ensures
        forall|j: int| 0 <= j < d.len() ==> d[j] != 'U',
{
    assert forall|j: int| 0 <= j < d.len() implies d[j] != 'U' by {
        assert(crate::text::is_digit(d[j]));
    }
}

/// The sync line is shown only when both counts are known. It says
/// "Up to date" exactly when both counts are zero; when the branch is ahead
/// or behind its upstream it gives both counts in decimal instead.
pub proof fn law_sync_line_reports_counts(ahead: Option<usize>, behind: Option<usize>, color: bool)
    ensures
        (ahead is None || behind is None) ==> sync_line(ahead, behind, color).len() == 0,
        (ahead is Some && behind is Some) ==> (contains_seq(
            sync_line(ahead, behind, color),
            "Up to date"@,
        ) <==> (ahead.unwrap() == 0 && behind.unwrap() == 0)),
        (ahead is Some && behind is Some && (ahead.unwrap() > 0 || behind.unwrap() > 0)) ==> sync_line(
            ahead,
            behind,
            color,
        ) == "Sync Status: "@ + decimal(ahead.unwrap() as nat) + " ahead, "@ + decimal(
            behind.unwrap() as nat,
        ) + " behind\n"@,
{
    reveal_strlit("Sync Status: ");
    reveal_strlit(" ahead, ");
    reveal_strlit(" behind");
    reveal_strlit(" behind\n");
    reveal_strlit("\n");
    reveal_strlit("Up to date");
    if ahead is Some && behind is Some {
        let a = ahead.unwrap();
        let b = behind.unwrap();
        let line = sync_line(ahead, behind, color);
        let up = "Up to date"@;
        if a > 0 || b > 0 {
            assert(" behind"@ + nl() =~= " behind\n"@);
            lemma_decimal_digits(a as nat);
            lemma_decimal_digits(b as nat);
            lemma_digits_lack_u(decimal(a as nat));
            lemma_digits_lack_u(decimal(b as nat));
            let p1 = "Sync Status: "@ + decimal(a as nat);
            lemma_concat_lacks("Sync Status: "@, decimal(a as nat), 'U');
            let p2 = p1 + " ahead, "@;
            lemma_concat_lacks(p1, " ahead, "@, 'U');
            let p3 = p2 + decimal(b as nat);
            lemma_concat_lacks(p2, decimal(b as nat), 'U');
            lemma_concat_lacks(p3, " behind\n"@, 'U');
            assert(line == p3 + " behind\n"@);
            if contains_seq(line, up) {
                let i = choose|i: int| occurs_at(line, up, i);
                assert(line.subrange(i, i + up.len())[0] == line[i]);
            }
        } else {
            let g = if color {
                colors::GREEN@
            } else {
                Seq::<char>::empty()
            };
            let i: int = 13 + g.len() as int;
            if color {
                assert(line == "Sync Status: "@ + (colors::GREEN@ + up + colors::RESET@) + nl());
            } else {
                assert(line == "Sync Status: "@ + up + nl());
            }
            assert(line.subrange(i, i + up.len()) =~= up);
            assert(occurs_at(line, up, i));
        }
    }
}

fn push_indented_strings(v: &mut Vec<char>, names: &Vec<String>)
    ensures
        final(v)@ == old(v)@ + indented_lines(strings_view(names@)),
{
    let ghost ns = strings_view(names@);
    let mut i: usize = 0;
    while i < names.len()
        invariant
            i <= names@.len(),
            ns == strings_view(names@),
            v@ == old(v)@ + indented_lines(ns.take(i as int)),
        decreases names@.len() - i,
    {
        push_str(v, "  ");
        push_line(v, names[i].as_str());
        proof {
            let t = ns.take(i + 1);
            assert(t.drop_last() =~= ns.take(i as int));
        }
        i = i + 1;
    }
    assert(ns.take(names@.len() as int) =~= ns);
}

impl RepoStatus {
    /// The table rendering: remote, commit, branch, working-directory state,
    /// upstream distance, and when verbose the branches.
    pub fn display_table(&self, options: &DisplayOptions) -> (r: String)
        requires
            repo_status_displayable(*self),
        ensures
            r@ == repo_table_text(*self, *options),
    {
        let mut v: Vec<char> = Vec::new();
        if !options.no_headers {
            push_heading(&mut v, "Repository Status", 50, options);
        }
        push_str(&mut v, "Remote URL: ");
        push_line(&mut v, self.remote_url.as_str());
        push_str(&mut v, "Current Commit: ");
        push_line(&mut v, format_commit_hash(self.current_commit.as_str(), true));
        push_opt_line(&mut v, "Current Branch: ", &self.current_branch);
        push_str(&mut v, "Working Directory: ");
        let st = if self.is_dirty {
            colorize("Modified", colors::YELLOW, options)
        } else {
            colorize("Clean", colors::GREEN, options)
        };
        push_line(&mut v, st.as_str());
        push_sync_line(&mut v, self.ahead_count, self.behind_count, options);
        if options.verbose && self.branches.len() > 0 {
            push_str(&mut v, "\n");
            let t = colorize("Available Branches", colors::BOLD, options);
            push_line(&mut v, t.as_str());
            push_indented_strings(&mut v, &self.branches);
        }
        assert(v@ =~= repo_table_text(*self, *options));
        string_of(v.as_slice())
    }

    /// The plain rendering: the branch, or `detached`, and whether the
    /// working directory is clean.
    pub fn display_plain(&self, options: &DisplayOptions) -> (r: String)
        ensures
            r@ == repo_plain_text(*self),
    {
        let mut v: Vec<char> = Vec::new();
        match &self.current_branch {
            Some(b) => push_str(&mut v, b.as_str()),
            None => push_str(&mut v, "detached"),
        }
        push_str(&mut v, " (");
        if self.is_dirty {
            push_str(&mut v, "modified");
        } else {
            push_str(&mut v, "clean");
        }
        push_line(&mut v, ")");
        assert(v@ =~= repo_plain_text(*self));
        string_of(v.as_slice())
    }
}

// ---------------------------------------------------------------------------
// Whole responses
// ---------------------------------------------------------------------------

/// Whether a response can be shown as a table: its commit hashes, if any, can
/// be shortened.
pub open spec fn payload_displayable(p: CommandPayload) -> bool {
    match p {
        CommandPayload::Status(s) => status_displayable(s),
        CommandPayload::GitStatus(s) => repo_status_displayable(s),
        _ => true,
    }
}

/// The table rendering of a response; captured output is shown as it is.
pub open spec fn payload_table_text(p: CommandPayload, o: DisplayOptions) -> Seq<char> {
    match p {
        CommandPayload::Status(s) => status_table_text(s, o),
        CommandPayload::ListServices(l) => services_table_text(l, o),
        CommandPayload::ServiceConfig(c) => config_table_text(c, o),
        CommandPayload::Dependencies(d) => dependencies_table_text(d, o),
        CommandPayload::GitLog(l) => log_table_text(l, o),
        CommandPayload::GitBranches(b) => branches_table_text(b, o),
        CommandPayload::GitStatus(s) => repo_table_text(s, o),
        CommandPayload::Stdout(out) => out@,
        CommandPayload::Error(e) => error_table_text(e, o),
        CommandPayload::Empty => Seq::empty(),
    }
}

/// The plain rendering of a response.
pub open spec fn payload_plain_text(p: CommandPayload) -> Seq<char> {
    match p {
        CommandPayload::Status(s) => status_plain_text(s),
        CommandPayload::ListServices(l) => name_lines(
            l.services@.map_values(|s: ServiceInfo| s.name@),
        ),
        CommandPayload::ServiceConfig(c) => config_plain_text(c),
        CommandPayload::Dependencies(d) => name_lines(
            d.dependencies@.map_values(|d: DependencyInfo| d.name@),
        ),
        CommandPayload::GitLog(l) => log_plain_text(l.commits@),
        CommandPayload::GitBranches(b) => name_lines(strings_view(b.branches@)),
        CommandPayload::GitStatus(s) => repo_plain_text(s),
        CommandPayload::Stdout(out) => out@,
        CommandPayload::Error(e) => "Error: "@ + e.message@ + nl(),
        CommandPayload::Empty => Seq::empty(),
    }
}

/// Whether a commit hash longer than seven bytes can be cut after its
/// seventh byte.
fn commit_cut_ok(hash: &str) -> (r: bool)
    ensures
        r == (encode_utf8(hash@).len() > 7 ==> cut_ok(hash@, 7)),
{
    hash.as_bytes().len() <= 7 || hash.is_char_boundary(7)
}

impl CommandPayload {
    /// Whether the response can be shown as a table (see [`payload_displayable`]).
    pub fn displayable(&self) -> (r: bool)
        ensures
            r == payload_displayable(*self),
    {
        match self {
            CommandPayload::Status(s) => match &s.git_commit_hash {
                Some(c) => commit_cut_ok(c.as_str()),
                None => true,
            },
            CommandPayload::GitStatus(s) => commit_cut_ok(s.current_commit.as_str()),
            _ => true,
        }
    }

    /// The table rendering of the response.
    pub fn display_table(&self, options: &DisplayOptions) -> (r: String)
        requires
            payload_displayable(*self),
        ensures
            r@ == payload_table_text(*self, *options),
    {
        match self {
            CommandPayload::Status(s) => s.display_table(options),
            CommandPayload::ListServices(l) => l.display_table(options),
            CommandPayload::ServiceConfig(c) => c.display_table(options),
            CommandPayload::Dependencies(d) => d.display_table(options),
            CommandPayload::GitLog(l) => l.display_table(options),
            CommandPayload::GitBranches(b) => b.display_table(options),
            CommandPayload::GitStatus(s) => s.display_table(options),
            CommandPayload::Stdout(out) => owned_string(out.as_str()),
            CommandPayload::Error(e) => e.display_table(options),
            CommandPayload::Empty => String::new(),
        }
    }

    /// The plain rendering of the response.
    pub fn display_plain(&self, options: &DisplayOptions) -> (r: String)
        ensures
            r@ == payload_plain_text(*self),
    {
        match self {
            CommandPayload::Status(s) => s.display_plain(options),
            CommandPayload::ListServices(l) => l.display_plain(options),
            CommandPayload::ServiceConfig(c) => c.display_plain(options),
            CommandPayload::Dependencies(d) => d.display_plain(options),
            CommandPayload::GitLog(l) => l.display_plain(options),
            CommandPayload::GitBranches(b) => b.display_plain(options),
            CommandPayload::GitStatus(s) => s.display_plain(options),
            CommandPayload::Stdout(out) => owned_string(out.as_str()),
            CommandPayload::Error(e) => e.display_plain(options),
            CommandPayload::Empty => String::new(),
        }
    }

    /// The rendering that the output format asks for: the table or plain
    /// text, and `None` for JSON and YAML, which serialise the response.
    pub fn display(&self, options: &DisplayOptions) -> (r: Option<String>)
        requires
            options.format == OutputFormat::Table ==> payload_displayable(*self),
        ensures
            match options.format {
                OutputFormat::Table => r matches Some(t) && t@ == payload_table_text(*self, *options),
                OutputFormat::Plain => r matches Some(t) && t@ == payload_plain_text(*self),
                _ => r is None,
            },
    {
        match options.format {
            OutputFormat::Table => Some(self.display_table(options)),
            OutputFormat::Plain => Some(self.display_plain(options)),
            OutputFormat::Json => None,
            OutputFormat::Yaml => None,
        }
    }
}

} // verus!
