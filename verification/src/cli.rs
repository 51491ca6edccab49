//! Command-line options of the server and where provider sign-in files go.
use vstd::prelude::*;
use crate::config::user_config_dir;
use crate::filenames::opt_view;
use crate::paths::{join_path, join_relative_path};
use crate::remote::opt_string_view;
use crate::text::{chars_of, contains_seq, has_prefix, push_str, str_eq, str_starts_with, string_of};

verus! {

/// Parsed command-line options for the server.
#[derive(Debug)]
pub struct CliOptions {
    pub music_path: Option<String>,
    pub youtube_cookie_file: Option<String>,
    pub netease_session_file: Option<String>,
    pub bilibili_session_file: Option<String>,
}

/// The options as text: music path, YouTube cookie file, Netease session file,
/// Bilibili session file.
pub type CliView = (Option<Seq<char>>, Option<Seq<char>>, Option<Seq<char>>, Option<Seq<char>>);

impl View for CliOptions {
    type V = CliView;

    open spec fn view(&self) -> CliView {
        (
            opt_string_view(self.music_path),
            opt_string_view(self.youtube_cookie_file),
            opt_string_view(self.netease_session_file),
            opt_string_view(self.bilibili_session_file),
        )
    }
}

/// The message for a flag given without its value.
pub open spec fn missing_value(flag: Seq<char>) -> Seq<char> {
    "Missing value for "@ + flag
}

/// The value that follows a flag at position `index`: there must be one, and it
/// must not itself look like a flag.
pub open spec fn flag_value(args: Seq<Seq<char>>, index: int, flag: Seq<char>) -> Result<Seq<char>, Seq<char>> {
    if index < 0 || index >= args.len() || has_prefix(args[index], "--"@) {
        Err(missing_value(flag))
    } else {
        Ok(args[index])
    }
}

/// The options read from `args[i..]`, on top of those already read: each of the
/// three file flags takes the next argument; any other `--` word is unknown; a
/// plain word is the music path, of which there is at most one.
pub open spec fn parse_from(args: Seq<Seq<char>>, i: int, acc: CliView) -> Result<CliView, Seq<char>>
    decreases args.len() - i,
{
    if i < 0 || i >= args.len() {
        Ok(acc)
    } else {
        let cur = args[i];
        if cur == "--youtube-cookie-file"@ {
            match flag_value(args, i + 1, cur) {
                Ok(v) => parse_from(args, i + 2, (acc.0, Some(v), acc.2, acc.3)),
                Err(e) => Err(e),
            }
        } else if cur == "--netease-session-file"@ {
            match flag_value(args, i + 1, cur) {
                Ok(v) => parse_from(args, i + 2, (acc.0, acc.1, Some(v), acc.3)),
                Err(e) => Err(e),
            }
        } else if cur == "--bilibili-session-file"@ {
            match flag_value(args, i + 1, cur) {
                Ok(v) => parse_from(args, i + 2, (acc.0, acc.1, acc.2, Some(v))),
                Err(e) => Err(e),
            }
        } else if has_prefix(cur, "--"@) {
            Err("Unknown option: "@ + cur)
        } else if acc.0 is Some {
            Err("Unexpected positional argument: "@ + cur + ". Only one music_path is supported."@)
        } else {
            parse_from(args, i + 1, (Some(cur), acc.1, acc.2, acc.3))
        }
    }
}

/// The characters of each argument.
pub open spec fn args_view(args: Seq<String>) -> Seq<Seq<char>> {
    args.map_values(|a: String| a@)
}

/// The options given by the arguments that follow the command name.
pub open spec fn cli_options(args: Seq<Seq<char>>) -> Result<CliView, Seq<char>> {
    parse_from(args, 0, (None, None, None, None))
}

fn with_flag(prefix: &str, flag: &str) -> (r: String)
    ensures
        r@ == prefix@ + flag@,
{
    let mut out: Vec<char> = Vec::new();
    push_str(&mut out, prefix);
    push_str(&mut out, flag);
    string_of(&out)
}

/// The value of the flag `flag`, expected at `args[index]`.
pub fn required_path_arg(args: &[String], index: usize, flag: &str) -> (r: Result<String, String>)
    ensures
        match r {
            Ok(v) => flag_value(args_view(args@), index as int, flag@) == Ok::<Seq<char>, Seq<char>>(v@),
            Err(e) => flag_value(args_view(args@), index as int, flag@) == Err::<Seq<char>, Seq<char>>(e@),
        },
{
    if index >= args.len() {
        return Err(with_flag("Missing value for ", flag));
    }
    let value = args[index].as_str();
    assert(args_view(args@)[index as int] == value@);
    if str_starts_with(value, "--") {
        return Err(with_flag("Missing value for ", flag));
    }
    Ok(string_of(&chars_of(value)))
}

/// The first line of the help text, naming the program as `program`.
pub open spec fn usage_line(program: Seq<char>) -> Seq<char> {
    "Usage: "@ + program + " <run|update> [music_path] [options]\n"@
}

/// The help text after its first line, up to the option list.
pub open spec fn usage_commands() -> Seq<char> {
    "\nCommands:\n  run     Start the web server\n  update  Scan for new music files and update database\n\nOptions:\n"@
}

/// The help text: the usage line, the commands, then one line per file flag.
pub open spec fn usage_text(program: Seq<char>) -> Seq<char> {
    usage_line(program) + usage_commands() + "  "@ + "--youtube-cookie-file <path>"@
        + "     Path to YouTube Netscape cookie jar\n  "@ + "--netease-session-file <path>"@
        + "    Path to Netease session.json\n  "@ + "--bilibili-session-file <path>"@
        + "   Path to Bilibili bilibili_session.json\n"@
}

impl CliOptions {
    /// The help text, naming the program as `program`.
    pub fn usage(program: &str) -> (r: String)
        ensures
            r@ == usage_text(program@),
    {
        let mut out: Vec<char> = Vec::new();
        push_str(&mut out, "Usage: ");
        push_str(&mut out, program);
        push_str(&mut out, " <run|update> [music_path] [options]\n");
        push_str(
            &mut out,
            "\nCommands:\n  run     Start the web server\n  update  Scan for new music files and update database\n\nOptions:\n",
        );
        push_str(&mut out, "  ");
        push_str(&mut out, "--youtube-cookie-file <path>");
        push_str(&mut out, "     Path to YouTube Netscape cookie jar\n  ");
        push_str(&mut out, "--netease-session-file <path>");
        push_str(&mut out, "    Path to Netease session.json\n  ");
        push_str(&mut out, "--bilibili-session-file <path>");
        push_str(&mut out, "   Path to Bilibili bilibili_session.json\n");
        string_of(&out)
    }
}

/// `pat` occurs in `s` right after `pre`.
proof fn lemma_occurs_at(s: Seq<char>, pre: Seq<char>, pat: Seq<char>, post: Seq<char>)
    requires
        s == pre + pat + post,
    ensures
        contains_seq(s, pat),
{
    assert(s.subrange(pre.len() as int, (pre.len() + pat.len()) as int) =~= pat);
}

/// The help text begins with the usage line and names each of the three file
/// flags with its `<path>` argument.
pub proof fn law_usage_names_every_flag(program: Seq<char>)
    ensures
        has_prefix(usage_text(program), usage_line(program)),
        contains_seq(usage_text(program), "--youtube-cookie-file <path>"@),
        contains_seq(usage_text(program), "--netease-session-file <path>"@),
        contains_seq(usage_text(program), "--bilibili-session-file <path>"@),
{
    let t = usage_text(program);
    let line = usage_line(program);
    let a = line + usage_commands() + "  "@;
    let y = "--youtube-cookie-file <path>"@;
    let b = "     Path to YouTube Netscape cookie jar\n  "@;
    let n = "--netease-session-file <path>"@;
    let c = "    Path to Netease session.json\n  "@;
    let bi = "--bilibili-session-file <path>"@;
    let d = "   Path to Bilibili bilibili_session.json\n"@;
    assert(t =~= line + (usage_commands() + "  "@ + y + b + n + c + bi + d));
    assert(t.take(line.len() as int) =~= line);
    assert(t =~= a + y + (b + n + c + bi + d));
    lemma_occurs_at(t, a, y, b + n + c + bi + d);
    assert(t =~= (a + y + b) + n + (c + bi + d));
    lemma_occurs_at(t, a + y + b, n, c + bi + d);
    assert(t =~= (a + y + b + n + c) + bi + d);
    lemma_occurs_at(t, a + y + b + n + c, bi, d);
}

/// Parses the arguments that follow the command name.
pub fn parse_cli_options(args: &[String]) -> (r: Result<CliOptions, String>)
    ensures
        match r {
            Ok(o) => cli_options(args_view(args@)) == Ok::<CliView, Seq<char>>(o@),
            Err(e) => cli_options(args_view(args@)) == Err::<CliView, Seq<char>>(e@),
        },
{
    let ghost av = args_view(args@);
    let mut options = CliOptions {
        music_path: None,
        youtube_cookie_file: None,
        netease_session_file: None,
        bilibili_session_file: None,
    };
    let mut index: usize = 0;
    while index < args.len()
        invariant
            index <= args.len(),
            av == args_view(args@),
            cli_options(av) == parse_from(av, index as int, options@),
        decreases args.len() - index,
    {
        let current = args[index].as_str();
        assert(av[index as int] == current@);
        if str_eq(current, "--youtube-cookie-file") {
            let v = required_path_arg(args, index + 1, current);
            match v {
                Ok(p) => {
                    options.youtube_cookie_file = Some(p);
                    index = index + 2;
                },
                Err(e) => {
                    return Err(e);
                },
            }
        } else if str_eq(current, "--netease-session-file") {
            let v = required_path_arg(args, index + 1, current);
            match v {
                Ok(p) => {
                    options.netease_session_file = Some(p);
                    index = index + 2;
                },
                Err(e) => {
                    return Err(e);
                },
            }
        } else if str_eq(current, "--bilibili-session-file") {
            let v = required_path_arg(args, index + 1, current);
            match v {
                Ok(p) => {
                    options.bilibili_session_file = Some(p);
                    index = index + 2;
                },
                Err(e) => {
                    return Err(e);
                },
            }
        } else if str_starts_with(current, "--") {
            return Err(with_flag("Unknown option: ", current));
        } else {
            if options.music_path.is_some() {
                let mut out: Vec<char> = Vec::new();
                push_str(&mut out, "Unexpected positional argument: ");
                push_str(&mut out, current);
                push_str(&mut out, ". Only one music_path is supported.");
                return Err(string_of(&out));
            }
            options.music_path = Some(string_of(&chars_of(current)));
            index = index + 1;
        }
    }
    Ok(options)
}

/// One of the three flags that take a file path.
pub open spec fn is_value_flag(a: Seq<char>) -> bool {
    a == "--youtube-cookie-file"@ || a == "--netease-session-file"@ || a == "--bilibili-session-file"@
}

/// `e` is the message the parser gives for the argument `a`: a missing value
/// for a file flag, an unknown option for another `--` word, or a second
/// positional argument.
pub open spec fn error_for_argument(e: Seq<char>, a: Seq<char>) -> bool {
    ||| is_value_flag(a) && e == missing_value(a)
    ||| !is_value_flag(a) && has_prefix(a, "--"@) && e == "Unknown option: "@ + a
    ||| !has_prefix(a, "--"@) && e == "Unexpected positional argument: "@ + a + ". Only one music_path is supported."@
}

proof fn lemma_parse_error_names_argument(args: Seq<Seq<char>>, i: int, acc: CliView)
    requires
        0 <= i,
    ensures
        parse_from(args, i, acc) is Err ==> exists|k: int|
            i <= k < args.len() && #[trigger] error_for_argument(parse_from(args, i, acc)->Err_0, args[k]),
    decreases args.len() - i,
{
    if i < args.len() {
        let cur = args[i];
        if cur == "--youtube-cookie-file"@ {
            match flag_value(args, i + 1, cur) {
                Ok(v) => {
                    assert(parse_from(args, i, acc) == parse_from(args, i + 2, (acc.0, Some(v), acc.2, acc.3)));
                    lemma_parse_error_names_argument(args, i + 2, (acc.0, Some(v), acc.2, acc.3));
                },
                Err(_) => {
                    assert(parse_from(args, i, acc) == Err::<CliView, Seq<char>>(missing_value(cur)));
                    assert(error_for_argument(parse_from(args, i, acc)->Err_0, args[i]));
                },
            }
        } else if cur == "--netease-session-file"@ {
            match flag_value(args, i + 1, cur) {
                Ok(v) => {
                    assert(parse_from(args, i, acc) == parse_from(args, i + 2, (acc.0, acc.1, Some(v), acc.3)));
                    lemma_parse_error_names_argument(args, i + 2, (acc.0, acc.1, Some(v), acc.3));
                },
                Err(_) => {
                    assert(parse_from(args, i, acc) == Err::<CliView, Seq<char>>(missing_value(cur)));
                    assert(error_for_argument(parse_from(args, i, acc)->Err_0, args[i]));
                },
            }
        } else if cur == "--bilibili-session-file"@ {
            match flag_value(args, i + 1, cur) {
                Ok(v) => {
                    assert(parse_from(args, i, acc) == parse_from(args, i + 2, (acc.0, acc.1, acc.2, Some(v))));
                    lemma_parse_error_names_argument(args, i + 2, (acc.0, acc.1, acc.2, Some(v)));
                },
                Err(_) => {
                    assert(parse_from(args, i, acc) == Err::<CliView, Seq<char>>(missing_value(cur)));
                    assert(error_for_argument(parse_from(args, i, acc)->Err_0, args[i]));
                },
            }
        } else if has_prefix(cur, "--"@) {
            assert(parse_from(args, i, acc) == Err::<CliView, Seq<char>>("Unknown option: "@ + cur));
            assert(error_for_argument(parse_from(args, i, acc)->Err_0, args[i]));
        } else if acc.0 is Some {
            assert(parse_from(args, i, acc) == Err::<CliView, Seq<char>>(
                "Unexpected positional argument: "@ + cur + ". Only one music_path is supported."@,
            ));
            assert(error_for_argument(parse_from(args, i, acc)->Err_0, args[i]));
        } else {
            assert(parse_from(args, i, acc) == parse_from(args, i + 1, (Some(cur), acc.1, acc.2, acc.3)));
            lemma_parse_error_names_argument(args, i + 1, (Some(cur), acc.1, acc.2, acc.3));
        }
    }
}

/// Every refusal of the parser names an argument that was given, with the
/// message for its kind: `Missing value for` a file flag that is last or is
/// followed by another `--` word, `Unknown option:` for any other `--` word, and
/// `Unexpected positional argument:` for a second plain word.
pub proof fn law_parse_errors_name_an_argument(args: Seq<Seq<char>>)
    ensures
        cli_options(args) matches Err(e) ==> exists|k: int|
            0 <= k < args.len() && #[trigger] error_for_argument(e, args[k]),
{
    lemma_parse_error_names_argument(args, 0, (None, None, None, None));
}

/// Without `--` words, one argument or none is always accepted, as the music path.
pub proof fn law_single_path_accepted(args: Seq<Seq<char>>)
    requires
        args.len() <= 1,
        forall|k: int| 0 <= k < args.len() ==> !has_prefix(#[trigger] args[k], "--"@),
    ensures
        cli_options(args) == Ok::<CliView, Seq<char>>(
            (if args.len() == 1 { Some(args[0]) } else { None }, None, None, None),
        ),
{
    if args.len() == 1 {
        let a = args[0];
        assert(!has_prefix(a, "--"@));
        reveal_strlit("--");
        reveal_strlit("--youtube-cookie-file");
        reveal_strlit("--netease-session-file");
        reveal_strlit("--bilibili-session-file");
        assert("--youtube-cookie-file"@.take(2) =~= "--"@);
        assert("--netease-session-file"@.take(2) =~= "--"@);
        assert("--bilibili-session-file"@.take(2) =~= "--"@);
        assert(a != "--youtube-cookie-file"@);
        assert(a != "--netease-session-file"@);
        assert(a != "--bilibili-session-file"@);
        assert(parse_from(args, 1, (Some(a), None, None, None)) == Ok::<CliView, Seq<char>>((Some(a), None, None, None)));
    }
}

/// A provider session file to copy into the shared sign-in directory: the flag
/// that named it, where it is, and the name it takes there.
pub struct SessionImport {
    pub flag: &'static str,
    pub source: String,
    pub target_name: &'static str,
}

/// The session files the options ask to import, Netease first, then Bilibili.
pub open spec fn session_imports_spec(o: CliView) -> Seq<(Seq<char>, Seq<char>, Seq<char>)> {
    (match o.2 {
        Some(p) => seq![("--netease-session-file"@, p, "session.json"@)],
        None => Seq::empty(),
    }) + (match o.3 {
        Some(p) => seq![("--bilibili-session-file"@, p, "bilibili_session.json"@)],
        None => Seq::empty(),
    })
}

/// The session files to import for the given options.
pub fn session_imports(options: &CliOptions) -> (r: Vec<SessionImport>)
    ensures
        r@.map_values(|i: SessionImport| (i.flag@, i.source@, i.target_name@)) == session_imports_spec(
            options@,
        ),
{
    let mut r: Vec<SessionImport> = Vec::new();
    match &options.netease_session_file {
        Some(p) => {
            r.push(
                SessionImport {
                    flag: "--netease-session-file",
                    source: string_of(&chars_of(p.as_str())),
                    target_name: "session.json",
                },
            );
        },
        None => {},
    }
    let ghost first = r@.map_values(|i: SessionImport| (i.flag@, i.source@, i.target_name@));
    match &options.bilibili_session_file {
        Some(p) => {
            r.push(
                SessionImport {
                    flag: "--bilibili-session-file",
                    source: string_of(&chars_of(p.as_str())),
                    target_name: "bilibili_session.json",
                },
            );
            assert(r@.map_values(|i: SessionImport| (i.flag@, i.source@, i.target_name@)) =~= first
                + seq![("--bilibili-session-file"@, p@, "bilibili_session.json"@)]);
        },
        None => {
            assert(r@.map_values(|i: SessionImport| (i.flag@, i.source@, i.target_name@)) =~= first
                + Seq::<(Seq<char>, Seq<char>, Seq<char>)>::empty());
        },
    }
    r
}

/// The directory provider sign-in files are copied to: the override from the
/// environment when set, else `ncmdump` under the user's configuration
/// directory.
pub open spec fn ncmdump_dir(env_override: Option<Seq<char>>, config_dir: Option<Seq<char>>) -> Result<
    Seq<char>,
    Seq<char>,
> {
    match env_override {
        Some(p) => Ok(p),
        None => match config_dir {
            Some(c) => Ok(join_path(c, "ncmdump"@)),
            None => Err("Cannot determine config directory for provider auth"@),
        },
    }
}

/// Chooses the sign-in directory from the environment override and the user's
/// configuration directory.
pub fn ncmdump_dir_from(env_override: Option<&str>, config_dir: Option<&str>) -> (r: Result<String, String>)
    ensures
        match r {
            Ok(d) => ncmdump_dir(opt_view(env_override), opt_view(config_dir)) == Ok::<Seq<char>, Seq<char>>(d@),
            Err(e) => ncmdump_dir(opt_view(env_override), opt_view(config_dir)) == Err::<Seq<char>, Seq<char>>(e@),
        },
{
    match env_override {
        Some(p) => Ok(string_of(&chars_of(p))),
        None => match config_dir {
            Some(c) => Ok(join_relative_path(c, "ncmdump")),
            None => Err("Cannot determine config directory for provider auth".to_owned()),
        },
    }
}

/// The sign-in directory: the environment override (read by the caller) when
/// set, else asks the platform for the configuration directory.
pub fn ncmdump_config_dir(env_override: Option<&str>) -> (r: Result<String, String>)
    ensures
        exists|c: Option<Seq<char>>| ncmdump_dir(opt_view(env_override), c) == match r {
            Ok(d) => Ok::<Seq<char>, Seq<char>>(d@),
            Err(e) => Err::<Seq<char>, Seq<char>>(e@),
        },
        env_override matches Some(p) ==> r matches Ok(d) && d@ == p@,
        env_override is None ==> (r matches Ok(d) ==> exists|c: Seq<char>| d@ == join_path(c, "ncmdump"@)),
        r matches Err(e) ==> env_override is None && e@ == "Cannot determine config directory for provider auth"@,
{
    match env_override {
        Some(p) => {
            let r = ncmdump_dir_from(Some(p), None);
            proof {
                let w: Option<Seq<char>> = None;
                assert(ncmdump_dir(opt_view(env_override), w) == Ok::<Seq<char>, Seq<char>>(p@));
            }
            r
        },
        None => {
            let dir = user_config_dir();
            match dir {
                Some(c) => {
                    let r = ncmdump_dir_from(None, Some(c.as_str()));
                    proof {
                        let w: Option<Seq<char>> = Some(c@);
                        assert(ncmdump_dir(opt_view(env_override), w) == Ok::<Seq<char>, Seq<char>>(join_path(c@, "ncmdump"@)));
                    }
                    r
                },
                None => {
                    let r = ncmdump_dir_from(None, None);
                    proof {
                        let w: Option<Seq<char>> = None;
                        assert(ncmdump_dir(opt_view(env_override), w) is Err);
                    }
                    r
                },
            }
        },
    }
}

} // verus!
