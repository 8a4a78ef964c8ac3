//! The application that has the focus, as the X11 property lister reports it.

use crate::error::{DogiError, ErrorKind};
use crate::text;
use vstd::prelude::*;

verus! {

/// What is known of the application that has the focus.
#[derive(Debug, PartialEq, Eq)]
pub struct ActiveApplication {
    pub name: Option<String>,
    pub class: Option<String>,
    pub executable: Option<String>,
}

/// The mathematical value of [`ActiveApplication`].
#[verifier::ext_equal]
pub struct ApplicationView {
    pub name: Option<Seq<char>>,
    pub class: Option<Seq<char>>,
    pub executable: Option<Seq<char>>,
}

impl View for ActiveApplication {
    type V = ApplicationView;

    open spec fn view(&self) -> ApplicationView {
        ApplicationView {
            name: text::optional(self.name),
            class: text::optional(self.class),
            executable: text::optional(self.executable),
        }
    }
}

impl ActiveApplication {
    /// The application of a title, a class and an executable.
    pub fn new(name: Option<String>, class: Option<String>, executable: Option<String>) -> (r: Self)
        ensures
            r@ == (ApplicationView {
                name: text::optional(name),
                class: text::optional(class),
                executable: text::optional(executable),
            }),
    {
        ActiveApplication { name, class, executable }
    }
}

/// A source of the application that has the focus.
pub trait ActiveApplicationProvider {
    fn active_application(&mut self) -> Result<Option<ActiveApplication>, DogiError>;
}

/// The window that has the focus: the word behind the first `#`, unless it stands for
/// none.
pub open spec fn active_window(output: Seq<char>) -> Option<Seq<char>> {
    let parts = text::pieces(output, '#');
    if parts.len() < 2 {
        None
    } else {
        match text::first_word(parts[1]) {
            Some(id) => if id == "0x0"@ {
                None
            } else {
                Some(id)
            },
            None => None,
        }
    }
}

/// The window that has the focus.
pub fn parse_active_window_id(output: &str) -> (r: Option<String>)
    ensures
        text::optional(r) == active_window(output@),
{
    let parts = text::split(output, '#');
    assert(text::texts(parts@).len() == parts@.len());
    if parts.len() < 2 {
        return None;
    }
    assert(text::texts(parts@)[1] == parts@[1]@);
    match text::word(parts[1].as_str()) {
        Some(id) => if text::same_text(id.as_str(), "0x0") {
            None
        } else {
            Some(id)
        },
        None => None,
    }
}

/// What stands in quotes from position `i` on, without the backslashes that protect a
/// character, and where the closing quote is. There is nothing where the quote is not
/// closed.
pub open spec fn quoted_body(s: Seq<char>, i: int) -> Option<(Seq<char>, int)>
    decreases s.len() - i,
{
    if i < 0 || i >= s.len() {
        None
    } else if s[i] == '"' {
        Some((Seq::empty(), i))
    } else if s[i] == '\\' {
        if i + 1 < s.len() {
            match quoted_body(s, i + 2) {
                Some((rest, end)) => Some((seq![s[i + 1]] + rest, end)),
                None => None,
            }
        } else {
            None
        }
    } else {
        match quoted_body(s, i + 1) {
            Some((rest, end)) => Some((seq![s[i]] + rest, end)),
            None => None,
        }
    }
}

proof fn lemma_quoted_body(s: Seq<char>, i: int)
    requires
        0 <= i,
    ensures
        quoted_body(s, i) matches Some((_, end)) ==> i <= end < s.len(),
    decreases s.len() - i,
{
    if i < s.len() && s[i] != '"' {
        if s[i] == '\\' {
            if i + 1 < s.len() {
                lemma_quoted_body(s, i + 2);
            }
        } else {
            lemma_quoted_body(s, i + 1);
        }
    }
}

/// The texts in quotes from position `i` on, without the white space around them.
/// Empty ones are left out.
pub open spec fn quoted_from(s: Seq<char>, i: int) -> Seq<Seq<char>>
    decreases s.len() - i,
    when 0 <= i <= s.len()
    via quoted_from_decreases
{
    let open = text::index_from(s, '"', i);
    if open >= s.len() {
        Seq::empty()
    } else {
        match quoted_body(s, open + 1) {
            None => Seq::empty(),
            Some((body, end)) => {
                let kept = text::trimmed(body);
                (if kept.len() > 0 {
                    seq![kept]
                } else {
                    Seq::empty()
                }) + quoted_from(s, end + 1)
            },
        }
    }
}

#[via_fn]
proof fn quoted_from_decreases(s: Seq<char>, i: int) {
    text::lemma_index_from(s, '"', i);
    let open = text::index_from(s, '"', i);
    if open < s.len() {
        lemma_quoted_body(s, open + 1);
    }
}

/// Reads what stands in quotes from position `i` on, and where the closing quote is.
fn read_quoted(chars: &Vec<char>, i: usize) -> (r: Option<(String, usize)>)
    requires
        i <= chars@.len(),
    ensures
        match r {
            Some((body, end)) => quoted_body(chars@, i as int) == Some((body@, end as int)) && i
                <= end < chars@.len(),
            None => quoted_body(chars@, i as int) is None,
        },
{
    let mut current = String::new();
    let mut at: usize = i;
    proof {
        lemma_quoted_body(chars@, i as int);
    }
    assert(match quoted_body(chars@, i as int) {
        Some((rest, end)) => current@ + rest == rest,
        None => true,
    });
    while at < chars.len()
        invariant
            i <= at <= chars@.len(),
            quoted_body(chars@, i as int) matches Some((_, end)) ==> i <= end < chars@.len(),
            quoted_body(chars@, i as int) == match quoted_body(chars@, at as int) {
                Some((rest, end)) => Some((current@ + rest, end)),
                None => None,
            },
        decreases chars@.len() - at,
    {
        let c = chars[at];
        let ghost before = current@;
        let ghost from = at as int;
        if c == '"' {
            assert(before + Seq::<char>::empty() =~= before);
            return Some((current, at));
        }
        if c == '\\' {
            if at + 1 >= chars.len() {
                return None;
            }
            current.push(chars[at + 1]);
            at += 2;
            assert(match quoted_body(chars@, at as int) {
                Some((rest, end)) => before + (seq![chars@[from + 1]] + rest) =~= current@ + rest,
                None => true,
            });
        } else {
            current.push(c);
            at += 1;
            assert(match quoted_body(chars@, at as int) {
                Some((rest, end)) => before + (seq![chars@[from]] + rest) =~= current@ + rest,
                None => true,
            });
        }
    }
    None
}

/// The texts in quotes.
pub fn parse_quoted_strings(value: &str) -> (r: Vec<String>)
    ensures
        text::texts(r@) == quoted_from(value@, 0),
{
    let chars = text::chars_of(value);
    let ghost s = value@;
    let mut strings: Vec<String> = Vec::new();
    let mut at: usize = 0;
    assert(text::texts(strings@) + quoted_from(s, 0) =~= quoted_from(s, 0));
    while at < chars.len()
        invariant
            chars@ == s,
            s == value@,
            at <= chars@.len(),
            text::texts(strings@) + quoted_from(s, at as int) == quoted_from(s, 0),
        decreases chars@.len() - at,
    {
        proof {
            text::lemma_index_from(s, '"', at as int);
        }
        let open = text::find_from(&chars, '"', at);
        if open >= chars.len() {
            assert(text::texts(strings@) + quoted_from(s, at as int) =~= text::texts(strings@));
            return strings;
        }
        match read_quoted(&chars, open + 1) {
            None => {
                assert(text::texts(strings@) + quoted_from(s, at as int) =~= text::texts(
                    strings@,
                ));
                return strings;
            },
            Some((body, end)) => {
                let ghost before = strings@;
                let kept = text::trim(body.as_str());
                if !kept.as_str().is_empty() {
                    strings.push(kept);
                    assert(text::texts(strings@) =~= text::texts(before).push(kept@));
                }
                at = end + 1;
                assert(text::texts(strings@) + quoted_from(s, at as int) =~= text::texts(before)
                    + ((if kept@.len() > 0 {
                    seq![kept@]
                } else {
                    Seq::empty()
                }) + quoted_from(s, at as int)));
            },
        }
    }
    proof {
        text::lemma_index_from(s, '"', at as int);
    }
    assert(text::texts(strings@) + quoted_from(s, at as int) =~= text::texts(strings@));
    strings
}

/// The texts in quotes behind the first `=` of a line.
pub open spec fn listed_values(line: Seq<char>) -> Seq<Seq<char>> {
    match text::halves(line, '=') {
        Some((_, value)) => quoted_from(value, 0),
        None => Seq::empty(),
    }
}

/// The first text in quotes behind the first `=` of a line.
pub open spec fn single_value(line: Seq<char>) -> Option<Seq<char>> {
    match text::halves(line, '=') {
        Some((_, value)) => first_of(quoted_from(text::trimmed(value), 0)),
        None => None,
    }
}

/// The first of some texts.
pub open spec fn first_of(values: Seq<Seq<char>>) -> Option<Seq<char>> {
    if values.len() > 0 {
        Some(values[0])
    } else {
        None
    }
}

/// The last of some texts.
pub open spec fn last_of(values: Seq<Seq<char>>) -> Option<Seq<char>> {
    if values.len() > 0 {
        Some(values.last())
    } else {
        None
    }
}

/// The first text in quotes behind the first `=` of a line.
pub fn parse_xprop_string_value(line: &str) -> (r: Option<String>)
    ensures
        text::optional(r) == single_value(line@),
{
    match text::split_once(line, '=') {
        Some((_, value)) => {
            let mut values = parse_quoted_strings(text::trim(value.as_str()).as_str());
            assert(text::texts(values@).len() == values@.len());
            if values.len() == 0 {
                None
            } else {
                assert(text::texts(values@)[0] == values@[0]@);
                Some(values.remove(0))
            }
        },
        None => None,
    }
}

/// The texts in quotes behind the first `=` of a line.
pub fn parse_xprop_string_list(line: &str) -> (r: Vec<String>)
    ensures
        text::texts(r@) == listed_values(line@),
{
    match text::split_once(line, '=') {
        Some((_, value)) => parse_quoted_strings(value.as_str()),
        None => {
            let empty: Vec<String> = Vec::new();
            assert(text::texts(empty@) =~= Seq::empty());
            empty
        },
    }
}

/// The first of two texts that is there.
pub open spec fn either(a: Option<Seq<char>>, b: Option<Seq<char>>) -> Option<Seq<char>> {
    match a {
        Some(_) => a,
        None => b,
    }
}

/// What is known of the window after one more line.
pub open spec fn window_step(window: ApplicationView, line: Seq<char>) -> ApplicationView {
    if text::has_prefix(line, "_NET_WM_NAME"@) {
        ApplicationView { name: either(single_value(line), window.name), ..window }
    } else if text::has_prefix(line, "WM_NAME"@) && window.name is None {
        ApplicationView { name: single_value(line), ..window }
    } else if text::has_prefix(line, "WM_CLASS"@) {
        ApplicationView {
            executable: either(first_of(listed_values(line)), window.executable),
            class: either(last_of(listed_values(line)), window.class),
            ..window
        }
    } else {
        window
    }
}

/// What is known of the window after the first `n` lines.
pub open spec fn window_after(lines: Seq<Seq<char>>, n: nat) -> ApplicationView
    decreases n,
{
    if n == 0 {
        ApplicationView { name: None, class: None, executable: None }
    } else {
        window_step(window_after(lines, (n - 1) as nat), lines[n - 1])
    }
}

/// The application that the properties of its window tell of.
pub open spec fn application_in(output: Seq<char>) -> Option<ApplicationView> {
    let lines = text::lines_of(output);
    let window = window_after(lines, lines.len());
    if window.name is Some || window.class is Some || window.executable is Some {
        Some(window)
    } else {
        None
    }
}

/// The view of an application that may be missing.
pub open spec fn application_view(application: Option<ActiveApplication>) -> Option<
    ApplicationView,
> {
    match application {
        Some(application) => Some(application@),
        None => None,
    }
}

/// Takes one more line into account.
fn note_line(window: ActiveApplication, line: &str) -> (r: ActiveApplication)
    ensures
        r@ == window_step(window@, line@),
{
    let mut window = window;
    if text::starts_with(line, "_NET_WM_NAME") {
        let value = parse_xprop_string_value(line);
        if value.is_some() {
            window.name = value;
        }
    } else if text::starts_with(line, "WM_NAME") && window.name.is_none() {
        window.name = parse_xprop_string_value(line);
    } else if text::starts_with(line, "WM_CLASS") {
        let values = parse_xprop_string_list(line);
        let count: usize = values.len();
        assert(text::texts(values@).len() == values@.len());
        if count > 0 {
            assert(text::texts(values@)[0] == values@[0]@);
            assert(text::texts(values@)[count - 1] == values@[count - 1]@);
            window.executable = Some(values[0].clone());
            window.class = Some(values[count - 1].clone());
        }
    }
    window
}

/// The application that the properties of its window tell of.
pub fn parse_window_properties(output: &str) -> (r: Option<ActiveApplication>)
    ensures
        application_view(r) == application_in(output@),
{
    let lines = text::lines(output);
    let ghost all = text::lines_of(output@);
    assert(text::texts(lines@).len() == lines@.len());
    let mut window = ActiveApplication::new(None, None, None);
    let mut i: usize = 0;
    while i < lines.len()
        invariant
            all == text::texts(lines@),
            all.len() == lines@.len(),
            i <= lines@.len(),
            window@ == window_after(all, i as nat),
        decreases lines@.len() - i,
    {
        assert(all[i as int] == lines@[i as int]@);
        window = note_line(window, lines[i].as_str());
        i += 1;
    }
    if window.name.is_some() || window.class.is_some() || window.executable.is_some() {
        Some(window)
    } else {
        None
    }
}

/// Asks the X11 server, by way of its property lister.
#[derive(Clone, Copy, Debug, PartialEq, Eq, Structural)]
pub struct SystemActiveApplicationProvider;

impl Default for SystemActiveApplicationProvider {
    fn default() -> (r: Self)
        ensures
            r == SystemActiveApplicationProvider,
    {
        SystemActiveApplicationProvider::new()
    }
}

impl SystemActiveApplicationProvider {
    pub fn new() -> (r: Self)
        ensures
            r == SystemActiveApplicationProvider,
    {
        SystemActiveApplicationProvider
    }

    /// What is asked first.
    pub fn root_query(&self) -> (r: Vec<String>)
        ensures
            text::texts(r@) == seq!["-root"@, "_NET_ACTIVE_WINDOW"@],
    {
        let query = vec!["-root".to_owned(), "_NET_ACTIVE_WINDOW".to_owned()];
        assert(text::texts(query@) =~= seq!["-root"@, "_NET_ACTIVE_WINDOW"@]);
        query
    }

    /// What is asked next; nothing where no window has the focus.
    pub fn window_query(&self, root: &str) -> (r: Option<Vec<String>>)
        ensures
            match r {
                Some(query) => active_window(root@) is Some && text::texts(query@) == seq![
                    "-id"@,
                    active_window(root@)->0,
                    "WM_CLASS"@,
                    "_NET_WM_NAME"@,
                    "WM_NAME"@,
                ],
                None => active_window(root@) is None,
            },
    {
        match parse_active_window_id(root) {
            Some(id) => {
                let query = vec![
                    "-id".to_owned(),
                    id,
                    "WM_CLASS".to_owned(),
                    "_NET_WM_NAME".to_owned(),
                    "WM_NAME".to_owned(),
                ];
                assert(text::texts(query@) =~= seq![
                    "-id"@,
                    id@,
                    "WM_CLASS"@,
                    "_NET_WM_NAME"@,
                    "WM_NAME"@,
                ]);
                Some(query)
            },
            None => None,
        }
    }
}

/// The failure to start the property lister.
pub fn xprop_missing(detail: &str) -> (r: DogiError)
    ensures
        r@ == (
            ErrorKind::BackendUnavailable,
            "xprop is required for X11 active-window profile detection: "@ + detail@,
        ),
{
    DogiError::BackendUnavailable(
        text::concat2("xprop is required for X11 active-window profile detection: ", detail),
    )
}

/// The failure that the property lister reports.
pub fn xprop_failed(stderr: &str) -> (r: DogiError)
    ensures
        r@ == (
            ErrorKind::BackendUnavailable,
            "xprop failed for active-window profile detection: "@ + text::trimmed(stderr@),
        ),
{
    let detail = text::trim(stderr);
    DogiError::BackendUnavailable(
        text::concat2("xprop failed for active-window profile detection: ", detail.as_str()),
    )
}

/// The window that has the focus is the word behind the first `#`; `0x0` stands for none.
pub proof fn law_focus_is_behind_the_sign(before: Seq<char>, after: Seq<char>)
    requires
        !before.contains('#'),
        !after.contains('#'),
    ensures
        text::first_word(after) is Some && text::first_word(after) != Some("0x0"@)
            ==> active_window(before + seq!['#'] + after) == text::first_word(after),
        text::first_word(after) == Some("0x0"@) ==> active_window(before + seq!['#'] + after) is None,
        active_window(before) is None,
{
    let whole = before + seq!['#'] + after;
    let n = before.len() as int;
    text::lemma_index_from(whole, '#', 0);
    let at = text::index_from(whole, '#', 0);
    assert(whole[n] == '#');
    if at < n {
        assert(before[at] == '#');
    }
    assert(at == n);
    text::lemma_index_from(whole, '#', n + 1);
    let next = text::index_from(whole, '#', n + 1);
    if next < whole.len() {
        assert(after[next - n - 1] == '#');
    }
    reveal_with_fuel(text::pieces_from, 3);
    assert(whole.subrange(n + 1, whole.len() as int) =~= after);
    text::lemma_index_from(before, '#', 0);
    let alone = text::index_from(before, '#', 0);
    if alone < before.len() {
        assert(before[alone] == '#');
    }
}

/// The class of a window is the last and its program the first of the names in its class; its
/// name is the one in UTF-8 where it has one, and the plain one otherwise.
pub proof fn law_windows_are_described(window: ApplicationView, line: Seq<char>, rest: Seq<char>)
    ensures
        line == "_NET_WM_NAME"@ + rest && single_value(line) is Some ==> window_step(
            window,
            line,
        ).name == single_value(line) && window_step(window, line).class == window.class
            && window_step(window, line).executable == window.executable,
        line == "WM_NAME"@ + rest && window.name is None ==> window_step(window, line).name
            == single_value(line) && window_step(window, line).class == window.class,
        line == "WM_NAME"@ + rest && window.name is Some ==> window_step(window, line).name
            == window.name,
        line == "WM_CLASS"@ + rest && listed_values(line).len() > 0 ==> {
            &&& window_step(window, line).executable == Some(listed_values(line)[0])
            &&& window_step(window, line).class == Some(listed_values(line).last())
            &&& window_step(window, line).name == window.name
        },
{
    reveal_strlit("_NET_WM_NAME");
    reveal_strlit("WM_NAME");
    reveal_strlit("WM_CLASS");
    let net = "_NET_WM_NAME"@ + rest;
    let plain = "WM_NAME"@ + rest;
    let class = "WM_CLASS"@ + rest;
    assert(net.take("_NET_WM_NAME"@.len() as int) =~= "_NET_WM_NAME"@);
    assert(plain.take("WM_NAME"@.len() as int) =~= "WM_NAME"@);
    assert(class.take("WM_CLASS"@.len() as int) =~= "WM_CLASS"@);
    assert("_NET_WM_NAME"@[0] == '_' && "WM_NAME"@[0] == 'W' && "WM_CLASS"@[0] == 'W');
    assert("WM_NAME"@[3] == 'N' && "WM_CLASS"@[3] == 'C');
    assert("WM_NAME"@.len() == 7 && "WM_CLASS"@.len() == 8 && "_NET_WM_NAME"@.len() == 12);
    if text::has_prefix(plain, "_NET_WM_NAME"@) {
        assert(plain.take(12)[0] == plain[0]);
    }
    if text::has_prefix(class, "_NET_WM_NAME"@) {
        assert(class.take(12)[0] == class[0]);
    }
    if text::has_prefix(class, "WM_NAME"@) {
        assert(class.take(7)[3] == class[3]);
    }
    if text::has_prefix(plain, "WM_CLASS"@) {
        assert(plain.take(8)[3] == plain[3]);
    }
}

/// A window without any of these is no application.
pub proof fn law_windows_without_names_are_none(output: Seq<char>)
    ensures
        ({
            let lines = text::lines_of(output);
            let w = window_after(lines, lines.len());
            &&& application_in(output) is Some <==> w.name is Some || w.class is Some
                || w.executable is Some
            &&& application_in(output) matches Some(found) ==> found == w
        }),
{
}

/// A text in quotes is read without them, and a character behind a backslash as it is.
pub proof fn law_quotes_are_taken_away(body: Seq<char>, before: Seq<char>, c: char)
    requires
        !body.contains('"') && !body.contains('\\'),
        !before.contains('"'),
        text::trimmed(body) == body,
        body.len() > 0,
    ensures
        quoted_from(before + seq!['"'] + body + seq!['"'], 0) == seq![body],
        quoted_body(seq!['\\', c, '"'], 0) == Some((seq![c], 2int)),
{
    let s = before + seq!['"'] + body + seq!['"'];
    let n = before.len() as int;
    text::lemma_index_from(s, '"', 0);
    let at = text::index_from(s, '"', 0);
    assert(s[n] == '"');
    if at < n {
        assert(before[at] == '"');
    }
    assert(at == n);
    assert forall|k: int| n + 1 <= k < n + 1 + body.len() implies #[trigger] s[k] == body[k - n - 1]
        && s[k] != '"' && s[k] != '\\' by {
        assert(body.contains(body[k - n - 1]));
    }
    lemma_plain_body(s, n + 1, n + 1 + body.len());
    assert(s.subrange(n + 1, n + 1 + body.len()) =~= body);
    let end = s.len() as int;
    reveal_with_fuel(quoted_from, 3);
    text::lemma_index_from(s, '"', end);
    assert(seq![body] + Seq::<Seq<char>>::empty() =~= seq![body]);
    reveal_with_fuel(quoted_body, 3);
    assert(seq![c] + Seq::<char>::empty() =~= seq![c]);
}

proof fn lemma_plain_body(s: Seq<char>, i: int, n: int)
    requires
        0 <= i <= n < s.len(),
        s[n] == '"',
        forall|k: int| i <= k < n ==> #[trigger] s[k] != '"' && s[k] != '\\',
    ensures
        quoted_body(s, i) == Some((s.subrange(i, n), n)),
    decreases n - i,
{
    if i < n {
        lemma_plain_body(s, i + 1, n);
        assert(seq![s[i]] + s.subrange(i + 1, n) =~= s.subrange(i, n));
    } else {
        assert(s.subrange(i, n) =~= Seq::empty());
    }
}

/// The window that has the focus is asked for first, and then its class and its names.
pub proof fn law_windows_are_asked_for(provider: &SystemActiveApplicationProvider, root: &str)
    ensures
        forall|r: Vec<String>|
            #![trigger call_ensures(SystemActiveApplicationProvider::root_query, (provider,), r)]
            call_ensures(SystemActiveApplicationProvider::root_query, (provider,), r) ==> text::texts(
                r@,
            ) == seq!["-root"@, "_NET_ACTIVE_WINDOW"@],
        forall|r: Option<Vec<String>>|
            #![trigger call_ensures(SystemActiveApplicationProvider::window_query, (provider, root), r)]
            call_ensures(SystemActiveApplicationProvider::window_query, (provider, root), r) ==> {
                &&& r is Some <==> active_window(root@) is Some
                &&& r matches Some(query) ==> text::texts(query@) == seq![
                    "-id"@,
                    active_window(root@)->0,
                    "WM_CLASS"@,
                    "_NET_WM_NAME"@,
                    "WM_NAME"@,
                ]
            },
        forall|r: Option<String>|
            #![trigger call_ensures(parse_active_window_id, (root,), r)]
            call_ensures(parse_active_window_id, (root,), r) ==> text::optional(r) == active_window(
                root@,
            ),
        forall|r: Option<ActiveApplication>|
            #![trigger call_ensures(parse_window_properties, (root,), r)]
            call_ensures(parse_window_properties, (root,), r) ==> (r is Some <==> application_in(
                root@,
            ) is Some) && (r matches Some(a) ==> application_in(root@) == Some(a@)),
{
}

/// The lines of a window are taken in one after the other, each on top of what is known.
pub proof fn law_lines_of_a_window_add_up(lines: Seq<Seq<char>>, line: Seq<char>)
    ensures
        window_after(Seq::empty(), 0) == (ApplicationView {
            name: None,
            class: None,
            executable: None,
        }),
        window_after(lines.push(line), lines.len() + 1) == window_step(
            window_after(lines, lines.len()),
            line,
        ),
{
    lemma_window_is_local(lines, lines.push(line), lines.len());
}

proof fn lemma_window_is_local(a: Seq<Seq<char>>, b: Seq<Seq<char>>, n: nat)
    requires
        n <= a.len() && n <= b.len(),
        forall|i: int| 0 <= i < n ==> a[i] == #[trigger] b[i],
    ensures
        window_after(a, n) == window_after(b, n),
    decreases n,
{
    if n > 0 {
        lemma_window_is_local(a, b, (n - 1) as nat);
        assert(a[n - 1] == b[n - 1]);
    }
}

}
