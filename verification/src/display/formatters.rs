//! Table and plain renderings of each daemon response.

use crate::display::colors;
use crate::display::utils::{
    byte_prefix, colorize, colorized, cut_ok, format_commit_hash, format_timestamp, pad_right,
    separator_text, state_color, status_color, write_table_row, write_table_separator, row_text,
};
use crate::display::DisplayOptions;
use crate::protocol::{
    format_name, state_name, CommandPayload, DependencyInfo, ErrorPayload, GitCommitInfo,
    GitListBranchesResponse, GitLogResponse, ListDependenciesResponse, ListServicesResponse,
    RepoStatus, ServiceConfigInfo, ServiceConfigPayload, ServiceInfo, ServiceRef, ServiceState,
    ServiceStatus,
};
use crate::text::{
    chars_of, decimal, i64_to_chars, int_decimal, lines, lines_of, lowercase, push_all, push_str,
    split, string_of, u64_to_chars,
};
use vstd::prelude::*;
use vstd::utf8::*;

verus! {

broadcast use vstd::string::group_string_axioms;

/// A line ending.
pub open spec fn nl() -> Seq<char> {
    "\n"@
}

/// A state name in the colour of the state.
pub open spec fn state_colored(s: ServiceState, color: bool) -> Seq<char> {
    colorized(state_name(s), state_color(lowercase(state_name(s))), color)
}

/// A bold section title with, when colour is on, a separator line of the given width.
pub open spec fn heading(title: Seq<char>, width: usize, o: DisplayOptions) -> Seq<char> {
    colorized(title, colors::BOLD@, o.color) + nl() + separator_text(seq![width], o.color)
}

/// A labelled line for an optional value; nothing when the value is absent.
pub open spec fn opt_line(label: Seq<char>, v: Option<String>) -> Seq<char> {
    match v {
        Some(s) => label + s@ + nl(),
        None => Seq::empty(),
    }
}

pub(crate) fn push_line(v: &mut Vec<char>, s: &str)
    ensures
        final(v)@ == old(v)@ + s@ + nl(),
{
    push_str(v, s);
    push_str(v, "\n");
}

pub(crate) fn push_i64(v: &mut Vec<char>, n: i64)
    ensures
        final(v)@ == old(v)@ + int_decimal(n as int),
{
    let d = i64_to_chars(n);
    push_all(v, d.as_slice());
}

pub(crate) fn push_colored_state(v: &mut Vec<char>, s: ServiceState, options: &DisplayOptions)
    ensures
        final(v)@ == old(v)@ + state_colored(s, options.color),
{
    let name = s.name();
    let c = colorize(name, status_color(name), options);
    push_str(v, c.as_str());
}

pub(crate) fn push_heading(v: &mut Vec<char>, title: &str, width: usize, options: &DisplayOptions)
    ensures
        final(v)@ == old(v)@ + heading(title@, width, *options),
{
    let t = colorize(title, colors::BOLD, options);
    push_line(v, t.as_str());
    let mut w: Vec<usize> = Vec::new();
    w.push(width);
    assert(w@ =~= seq![width]);
    let sep = write_table_separator(&w, options);
    push_str(v, sep.as_str());
}

pub(crate) fn push_opt_line(v: &mut Vec<char>, label: &str, value: &Option<String>)
    ensures
        final(v)@ == old(v)@ + opt_line(label@, *value),
{
    match value {
        Some(s) => {
            push_str(v, label);
            push_line(v, s.as_str());
        },
        None => {
            assert(v@ =~= old(v)@ + opt_line(label@, *value));
        },
    }
}

// ---------------------------------------------------------------------------
// Service status
// ---------------------------------------------------------------------------

/// The configuration section of a service status.
pub open spec fn config_section(c: Option<ServiceConfigInfo>, o: DisplayOptions) -> Seq<char> {
    match c {
        None => Seq::empty(),
        Some(c) => nl() + colorized("Configuration"@, colors::BOLD@, o.color) + nl() + opt_line(
            "Config File: "@,
            c.filename,
        ) + match c.format {
            Some(f) => "Config Format: "@ + format_name(f) + nl(),
            None => Seq::empty(),
        } + opt_line("Run Command: "@, c.run_command),
    }
}

/// One dependency line of a service status.
pub open spec fn dependency_line(d: DependencyInfo, color: bool) -> Seq<char> {
    "  "@ + d.name@ + " ("@ + (if d.tunnel_enabled {
        "tunneled"@
    } else {
        "direct"@
    }) + ") - "@ + state_colored(d.state, color) + nl()
}

/// The dependency lines of a service status.
pub open spec fn dependency_lines(deps: Seq<DependencyInfo>, color: bool) -> Seq<char>
    decreases deps.len(),
{
    if deps.len() == 0 {
        Seq::empty()
    } else {
        dependency_lines(deps.drop_last(), color) + dependency_line(deps.last(), color)
    }
}

/// The dependency section of a service status; nothing when there are none.
pub open spec fn dependency_section(deps: Seq<DependencyInfo>, o: DisplayOptions) -> Seq<char> {
    if deps.len() == 0 {
        Seq::empty()
    } else {
        nl() + colorized("Dependencies"@, colors::BOLD@, o.color) + nl() + dependency_lines(
            deps,
            o.color,
        )
    }
}

/// Whether a service status can be shown: a commit hash longer than 7 bytes
/// can be cut after its 7th byte.
pub open spec fn status_displayable(s: ServiceStatus) -> bool {
    s.git_commit_hash matches Some(c) ==> (encode_utf8(c@).len() > 7 ==> cut_ok(c@, 7))
}

/// The table rendering of a service status.
pub open spec fn status_table_text(s: ServiceStatus, o: DisplayOptions) -> Seq<char> {
    (if o.no_headers {
        Seq::empty()
    } else {
        heading("Service Details"@, 50, o)
    }) + "ID: "@ + int_decimal(s.id as int) + nl() + "Name: "@ + s.name@ + nl() + "Status: "@
        + state_colored(s.state, o.color) + nl() + "Port: "@ + int_decimal(s.port as int) + nl()
        + "Repository URL: "@ + s.repo_url@ + nl() + "Repository Path: "@ + s.repo_path@ + nl()
        + opt_line("Git Branch: "@, s.git_branch) + match s.git_commit_hash {
        Some(c) => "Git Commit: "@ + (if encode_utf8(c@).len() > 7 {
            byte_prefix(c@, 7)
        } else {
            c@
        }) + nl(),
        None => Seq::empty(),
    } + config_section(s.config, o) + dependency_section(s.dependencies@, o)
}

/// The plain rendering of a service status.
pub open spec fn status_plain_text(s: ServiceStatus) -> Seq<char> {
    s.name@ + " ("@ + state_name(s.state) + ") - Port "@ + int_decimal(s.port as int) + nl()
}

fn push_config_section(v: &mut Vec<char>, c: &Option<ServiceConfigInfo>, options: &DisplayOptions)
    ensures
        final(v)@ == old(v)@ + config_section(*c, *options),
{
    match c {
        None => {
            assert(v@ =~= old(v)@ + config_section(*c, *options));
        },
        Some(cfg) => {
            push_str(v, "\n");
            let t = colorize("Configuration", colors::BOLD, options);
            push_line(v, t.as_str());
            push_opt_line(v, "Config File: ", &cfg.filename);
            let ghost mid = v@;
            match cfg.format {
                Some(f) => {
                    push_str(v, "Config Format: ");
                    push_line(v, f.name());
                },
                None => {},
            }
            push_opt_line(v, "Run Command: ", &cfg.run_command);
            proof {
                match &cfg.format {
                    Some(f) => {
                        assert(v@ =~= mid + ("Config Format: "@ + format_name(*f) + nl()) + opt_line(
                            "Run Command: "@,
                            cfg.run_command,
                        ));
                    },
                    None => {
                        assert(v@ =~= mid + Seq::<char>::empty() + opt_line(
                            "Run Command: "@,
                            cfg.run_command,
                        ));
                    },
                }
                assert(v@ =~= old(v)@ + config_section(*c, *options));
            }
        },
    }
}

fn push_dependency_lines(v: &mut Vec<char>, deps: &Vec<DependencyInfo>, options: &DisplayOptions)
    ensures
        final(v)@ == old(v)@ + dependency_lines(deps@, options.color),
{
    let mut i: usize = 0;
    while i < deps.len()
        invariant
            i <= deps@.len(),
            v@ == old(v)@ + dependency_lines(deps@.take(i as int), options.color),
        decreases deps@.len() - i,
    {
        let ghost before = v@;
        let d = &deps[i];
        push_str(v, "  ");
        push_str(v, d.name.as_str());
        push_str(v, " (");
        if d.tunnel_enabled {
            push_str(v, "tunneled");
        } else {
            push_str(v, "direct");
        }
        push_str(v, ") - ");
        push_colored_state(v, d.state, options);
        push_str(v, "\n");
        proof {
            let t = deps@.take(i + 1);
            assert(t.drop_last() =~= deps@.take(i as int));
            assert(t.last() == deps@[i as int]);
            assert(v@ =~= before + dependency_line(deps@[i as int], options.color));
            assert(v@ =~= old(v)@ + dependency_lines(t, options.color));
        }
        i = i + 1;
    }
    assert(deps@.take(deps@.len() as int) =~= deps@);
}

impl ServiceStatus {
    /// The table rendering: details, configuration and dependencies.
    pub fn display_table(&self, options: &DisplayOptions) -> (r: String)
        requires
            status_displayable(*self),
        ensures
            r@ == status_table_text(*self, *options),
    {
        let mut v: Vec<char> = Vec::new();
        if !options.no_headers {
            push_heading(&mut v, "Service Details", 50, options);
        }
        let ghost h = v@;
        push_str(&mut v, "ID: ");
        push_i64(&mut v, self.id);
        push_str(&mut v, "\n");
        push_str(&mut v, "Name: ");
        push_line(&mut v, self.name.as_str());
        push_str(&mut v, "Status: ");
        push_colored_state(&mut v, self.state, options);
        push_str(&mut v, "\n");
        push_str(&mut v, "Port: ");
        push_i64(&mut v, self.port);
        push_str(&mut v, "\n");
        push_str(&mut v, "Repository URL: ");
        push_line(&mut v, self.repo_url.as_str());
        push_str(&mut v, "Repository Path: ");
        push_line(&mut v, self.repo_path.as_str());
        push_opt_line(&mut v, "Git Branch: ", &self.git_branch);
        let ghost g = v@;
        match &self.git_commit_hash {
            Some(c) => {
                push_str(&mut v, "Git Commit: ");
                push_line(&mut v, format_commit_hash(c.as_str(), true));
            },
            None => {},
        }
        let ghost k = v@;
        push_config_section(&mut v, &self.config, options);
        let ghost m = v@;
        if self.dependencies.len() > 0 {
            push_str(&mut v, "\n");
            let t = colorize("Dependencies", colors::BOLD, options);
            push_line(&mut v, t.as_str());
            push_dependency_lines(&mut v, &self.dependencies, options);
        }
        proof {
            assert(v@ =~= m + dependency_section(self.dependencies@, *options));
            match &self.git_commit_hash {
                Some(c) => {
                    assert(k =~= g + ("Git Commit: "@ + (if encode_utf8(c@).len() > 7 {
                        byte_prefix(c@, 7)
                    } else {
                        c@
                    }) + nl()));
                },
                None => {
                    assert(k =~= g + Seq::<char>::empty());
                },
            }
            if options.no_headers {
                assert(h =~= Seq::<char>::empty());
            }
            assert(v@ =~= status_table_text(*self, *options));
        }
        string_of(v.as_slice())
    }

    /// The plain rendering: name, state and port on one line.
    pub fn display_plain(&self, options: &DisplayOptions) -> (r: String)
        ensures
            r@ == status_plain_text(*self),
    {
        let mut v: Vec<char> = Vec::new();
        push_str(&mut v, self.name.as_str());
        push_str(&mut v, " (");
        push_str(&mut v, self.state.name());
        push_str(&mut v, ") - Port ");
        push_i64(&mut v, self.port);
        push_str(&mut v, "\n");
        assert(v@ =~= status_plain_text(*self));
        string_of(v.as_slice())
    }
}


// ---------------------------------------------------------------------------
// Shared pieces
// ---------------------------------------------------------------------------

/// The width of a column: the widest entry, and at least `min`.
pub open spec fn column_width(lens: Seq<int>, min: int) -> int
    decreases lens.len(),
{
    if lens.len() == 0 {
        min
    } else {
        let w = column_width(lens.drop_last(), min);
        if lens.last() > w {
            lens.last()
        } else {
            w
        }
    }
}

proof fn lemma_column_width_bound(lens: Seq<int>, min: int, bound: int)
    requires
        min <= bound,
        forall|i: int| 0 <= i < lens.len() ==> #[trigger] lens[i] <= bound,
    ensures
        min <= column_width(lens, min) <= bound,
    decreases lens.len(),
{
    if lens.len() > 0 {
        lemma_column_width_bound(lens.drop_last(), min, bound);
    }
}

/// The byte length of a string in UTF-8.
pub open spec fn byte_len(s: String) -> int {
    encode_utf8(s@).len() as int
}

pub(crate) fn push_row(v: &mut Vec<char>, cols: Vec<String>, widths: &Vec<usize>, options: &DisplayOptions)
    ensures
        final(v)@ == old(v)@ + row_text(crate::git::types::strings_view(cols@), widths@),
{
    let r = write_table_row(&cols, widths, options);
    push_str(v, r.as_str());
}

pub(crate) fn owned_string(s: &str) -> (r: String)
    ensures
        r@ == s@,
{
    s.to_owned()
}

pub(crate) fn chars_string(c: Vec<char>) -> (r: String)
    ensures
        r@ == c@,
{
    string_of(c.as_slice())
}

pub(crate) fn yes_no(b: bool) -> (r: &'static str)
    ensures
        r@ == (if b {
            "Yes"@
        } else {
            "No"@
        }),
{
    if b {
        "Yes"
    } else {
        "No"
    }
}

// ---------------------------------------------------------------------------
// Service list
// ---------------------------------------------------------------------------

/// The widths of the service list columns.
pub open spec fn service_widths(ss: Seq<ServiceInfo>) -> Seq<usize> {
    seq![
        column_width(ss.map_values(|s: ServiceInfo| int_decimal(s.id as int).len() as int), 2) as usize,
        column_width(ss.map_values(|s: ServiceInfo| byte_len(s.name)), 4) as usize,
        8usize,
        5usize,
        4usize,
    ]
}

/// The table row of one service.
pub open spec fn service_row(s: ServiceInfo, widths: Seq<usize>, color: bool) -> Seq<char> {
    row_text(
        seq![
            int_decimal(s.id as int),
            s.name@,
            state_colored(s.state, color),
            int_decimal(s.port as int),
            if s.has_dependencies {
                "Yes"@
            } else {
                "No"@
            },
        ],
        widths,
    )
}

/// The table rows of the services.
pub open spec fn service_rows(ss: Seq<ServiceInfo>, widths: Seq<usize>, color: bool) -> Seq<char>
    decreases ss.len(),
{
    if ss.len() == 0 {
        Seq::empty()
    } else {
        service_rows(ss.drop_last(), widths, color) + service_row(ss.last(), widths, color)
    }
}

/// The table rendering of the service list.
pub open spec fn services_table_text(l: ListServicesResponse, o: DisplayOptions) -> Seq<char> {
    let ss = l.services@;
    if ss.len() == 0 {
        "No services found"@ + nl()
    } else {
        let w = service_widths(ss);
        (if o.no_headers {
            Seq::empty()
        } else {
            row_text(seq!["ID"@, "NAME"@, "STATUS"@, "PORT"@, "DEPS"@], w) + separator_text(
                w,
                o.color,
            )
        }) + service_rows(ss, w, o.color)
    }
}

/// Lines of names, one per entry.
pub open spec fn name_lines(names: Seq<Seq<char>>) -> Seq<char>
    decreases names.len(),
{
    if names.len() == 0 {
        Seq::empty()
    } else {
        name_lines(names.drop_last()) + names.last() + nl()
    }
}

pub(crate) fn push_name_lines(v: &mut Vec<char>, names: &Vec<String>)
    ensures
        final(v)@ == old(v)@ + name_lines(crate::git::types::strings_view(names@)),
{
    let ghost ns = crate::git::types::strings_view(names@);
    let mut i: usize = 0;
    while i < names.len()
        invariant
            i <= names@.len(),
            ns == crate::git::types::strings_view(names@),
            v@ == old(v)@ + name_lines(ns.take(i as int)),
        decreases names@.len() - i,
    {
        push_line(v, names[i].as_str());
        proof {
            let t = ns.take(i + 1);
            assert(t.drop_last() =~= ns.take(i as int));
        }
        i = i + 1;
    }
    assert(ns.take(names@.len() as int) =~= ns);
}

fn decimal_len(n: i64) -> (r: usize)
    ensures
        r == int_decimal(n as int).len(),
{
    i64_to_chars(n).len()
}

impl ListServicesResponse {
    fn widths(&self) -> (r: Vec<usize>)
        ensures
            r@ == service_widths(self.services@),
    {
        let ghost ss = self.services@;
        let ghost il = ss.map_values(|s: ServiceInfo| int_decimal(s.id as int).len() as int);
        let ghost nlens = ss.map_values(|s: ServiceInfo| byte_len(s.name));
        let mut idw: usize = 2;
        let mut nw: usize = 4;
        let mut i: usize = 0;
        while i < self.services.len()
            invariant
                i <= ss.len(),
                ss == self.services@,
                il == ss.map_values(|s: ServiceInfo| int_decimal(s.id as int).len() as int),
                nlens == ss.map_values(|s: ServiceInfo| byte_len(s.name)),
                idw == column_width(il.take(i as int), 2),
                nw == column_width(nlens.take(i as int), 4),
            decreases ss.len() - i,
        {
            let s = &self.services[i];
            let a = decimal_len(s.id);
            let b = s.name.as_str().as_bytes().len();
            proof {
                assert(il.take(i + 1).drop_last() =~= il.take(i as int));
                assert(nlens.take(i + 1).drop_last() =~= nlens.take(i as int));
                assert(il.take(i + 1).last() == a);
                assert(nlens.take(i + 1).last() == b);
            }
            if a > idw {
                idw = a;
            }
            if b > nw {
                nw = b;
            }
            i = i + 1;
        }
        assert(il.take(ss.len() as int) =~= il);
        assert(nlens.take(ss.len() as int) =~= nlens);
        let mut w: Vec<usize> = Vec::new();
        w.push(idw);
        w.push(nw);
        w.push(8);
        w.push(5);
        w.push(4);
        assert(w@ =~= service_widths(ss));
        w
    }

    /// The table rendering: a row per service, with a header row unless
    /// headers are off.
    pub fn display_table(&self, options: &DisplayOptions) -> (r: String)
        ensures
            r@ == services_table_text(*self, *options),
    {
        let mut v: Vec<char> = Vec::new();
        if self.services.len() == 0 {
            push_line(&mut v, "No services found");
            assert(v@ =~= services_table_text(*self, *options));
            return string_of(v.as_slice());
        }
        let widths = self.widths();
        if !options.no_headers {
            let mut h: Vec<String> = Vec::new();
            h.push(owned_string("ID"));
            h.push(owned_string("NAME"));
            h.push(owned_string("STATUS"));
            h.push(owned_string("PORT"));
            h.push(owned_string("DEPS"));
            assert(crate::git::types::strings_view(h@) =~= seq![
                "ID"@,
                "NAME"@,
                "STATUS"@,
                "PORT"@,
                "DEPS"@,
            ]);
            push_row(&mut v, h, &widths, options);
            let sep = write_table_separator(&widths, options);
            push_str(&mut v, sep.as_str());
        }
        let ghost head = v@;
        let ghost ss = self.services@;
        let mut i: usize = 0;
        while i < self.services.len()
            invariant
                i <= ss.len(),
                ss == self.services@,
                widths@ == service_widths(ss),
                v@ == head + service_rows(ss.take(i as int), widths@, options.color),
            decreases ss.len() - i,
        {
            let s = &self.services[i];
            let name = s.name.as_str();
            let st = colorize(s.state.name(), status_color(s.state.name()), options);
            let mut cols: Vec<String> = Vec::new();
            cols.push(chars_string(i64_to_chars(s.id)));
            cols.push(owned_string(name));
            cols.push(st);
            cols.push(chars_string(i64_to_chars(s.port)));
            cols.push(owned_string(yes_no(s.has_dependencies)));
            proof {
                assert(crate::git::types::strings_view(cols@) =~= seq![
                    int_decimal(s.id as int),
                    s.name@,
                    state_colored(s.state, options.color),
                    int_decimal(s.port as int),
                    if s.has_dependencies {
                        "Yes"@
                    } else {
                        "No"@
                    },
                ]);
                let t = ss.take(i + 1);
                assert(t.drop_last() =~= ss.take(i as int));
                assert(t.last() == ss[i as int]);
            }
            push_row(&mut v, cols, &widths, options);
            i = i + 1;
        }
        assert(ss.take(ss.len() as int) =~= ss);
        proof {
            if options.no_headers {
                assert(head =~= Seq::<char>::empty());
            }
            assert(v@ =~= services_table_text(*self, *options));
        }
        string_of(v.as_slice())
    }

    /// The plain rendering: one service name per line.
    pub fn display_plain(&self, options: &DisplayOptions) -> (r: String)
        ensures
            r@ == name_lines(self.services@.map_values(|s: ServiceInfo| s.name@)),
    {
        let mut names: Vec<String> = Vec::new();
        let mut i: usize = 0;
        while i < self.services.len()
            invariant
                i <= self.services@.len(),
                crate::git::types::strings_view(names@) == self.services@.take(
                    i as int,
                ).map_values(|s: ServiceInfo| s.name@),
            decreases self.services@.len() - i,
        {
            let ghost pre = crate::git::types::strings_view(names@);
            let nm = owned_string(self.services[i].name.as_str());
            let ghost nv = nm@;
            names.push(nm);
            assert(crate::git::types::strings_view(names@) =~= pre.push(nv));
            assert(self.services@.take(i + 1).map_values(|s: ServiceInfo| s.name@) =~= self.services@.take(
                i as int,
            ).map_values(|s: ServiceInfo| s.name@).push(nv));
            assert(crate::git::types::strings_view(names@) =~= self.services@.take(
                i + 1,
            ).map_values(|s: ServiceInfo| s.name@));
            i = i + 1;
        }
        assert(self.services@.take(self.services@.len() as int) =~= self.services@);
        let mut v: Vec<char> = Vec::new();
        push_name_lines(&mut v, &names);
        assert(v@ =~= name_lines(self.services@.map_values(|s: ServiceInfo| s.name@)));
        string_of(v.as_slice())
    }
}

} // verus!
