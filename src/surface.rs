//! The surface lifecycle: checks before a surface is attached, and the
//! shell's record of live surfaces, kept in step with what the host answers
//! to each operation on a label.

use vstd::prelude::*;
use vstd::string::*;
use crate::error::ShellError;
use crate::text::str_equal;

verus! {

#[verifier::external_type_specification]
#[verifier::external_body]
pub struct ExUrl(url::Url);

#[verifier::external_type_specification]
#[verifier::external_body]
pub struct ExParseError(url::ParseError);

/// Whether the url crate reads these characters as an absolute URL.
pub uninterp spec fn parses_as_url(s: Seq<char>) -> bool;

/// Relies on url::Url::parse: it returns `Ok` exactly when the string holds
/// an absolute URL, which depends on the characters alone.
#[verifier::external_body]
fn parse_url(s: &str) -> (r: Result<url::Url, url::ParseError>)
    ensures
        r is Ok <==> parses_as_url(s@),
{
    url::Url::parse(s)
}

/// The checks made before a new surface is attached: the main window must
/// exist, then the address must parse as a URL.
pub fn check_create(window_found: bool, url: &str) -> (r: Result<url::Url, ShellError>)
    ensures
        !window_found ==> r matches Err(ShellError::WindowNotFound),
        window_found && !parses_as_url(url@) ==> r matches Err(ShellError::InvalidUrl(_)),
        window_found && parses_as_url(url@) ==> r is Ok,
{
    if !window_found {
        return Err(ShellError::WindowNotFound);
    }
    match parse_url(url) {
        Ok(u) => Ok(u),
        Err(e) => Err(ShellError::InvalidUrl(e.to_string())),
    }
}

/// What the host did when asked to apply an operation to a labelled surface.
#[derive(Clone, Debug)]
pub enum HostOutcome {
    /// No surface has that label.
    Missing,
    Done,
    /// The runtime reported an error, with its text.
    Failed(String),
}

/// One recorded surface: its label and whether it is shown.
#[derive(Clone, Debug)]
pub struct SurfaceEntry {
    pub label: String,
    pub visible: bool,
}

/// The surfaces the entries describe, label to visibility; a later entry
/// for a label stands over an earlier one.
pub open spec fn surfaces_of(s: Seq<SurfaceEntry>) -> Map<Seq<char>, bool>
    decreases s.len(),
{
    if s.len() == 0 {
        Map::empty()
    } else {
        surfaces_of(s.drop_last()).insert(s.last().label@, s.last().visible)
    }
}

/// The record after the host answered for `label`: a surface it did not
/// find is forgotten.
pub open spec fn settle(m: Map<Seq<char>, bool>, label: Seq<char>, o: HostOutcome) -> Map<
    Seq<char>,
    bool,
> {
    if o is Missing {
        m.remove(label)
    } else {
        m
    }
}

/// The record after the host answered a request to show or hide `label`.
pub open spec fn after_visibility(
    m: Map<Seq<char>, bool>,
    label: Seq<char>,
    o: HostOutcome,
    visible: bool,
) -> Map<Seq<char>, bool> {
    match o {
        HostOutcome::Missing => m.remove(label),
        HostOutcome::Done => m.insert(label, visible),
        HostOutcome::Failed(_) => m,
    }
}

/// The record after the host answered a request to close `label`.
pub open spec fn after_destroy(m: Map<Seq<char>, bool>, label: Seq<char>, o: HostOutcome) -> Map<
    Seq<char>,
    bool,
> {
    if o is Failed {
        m
    } else {
        m.remove(label)
    }
}

/// The record after the host answered a request to attach `label`.
pub open spec fn after_create(
    m: Map<Seq<char>, bool>,
    label: Seq<char>,
    attached: Result<(), String>,
) -> Map<Seq<char>, bool> {
    if attached is Ok {
        m.insert(label, true)
    } else {
        m
    }
}

/// A surface that was attached, then shown (or not found, or not shown),
/// then closed without a runtime error, is no longer reachable by its label.
pub proof fn lemma_create_show_destroy_forgets(
    m: Map<Seq<char>, bool>,
    label: Seq<char>,
    attached: Result<(), String>,
    shown: HostOutcome,
    closed: HostOutcome,
)
    requires
        !(closed is Failed),
    ensures
        !after_destroy(
            after_visibility(after_create(m, label, attached), label, shown, true),
            label,
            closed,
        ).contains_key(label),
{
}

/// The live surfaces, by label, with whether each is shown.
pub struct SurfaceTable {
    entries: Vec<SurfaceEntry>,
}

impl View for SurfaceTable {
    type V = Map<Seq<char>, bool>;

    closed spec fn view(&self) -> Map<Seq<char>, bool> {
        surfaces_of(self.entries@)
    }
}

impl SurfaceTable {
    /// A table with no surface.
    pub fn new() -> (r: SurfaceTable)
        ensures
            r@ == Map::<Seq<char>, bool>::empty(),
    {
        SurfaceTable { entries: Vec::new() }
    }

    /// Whether a surface with this label is live, and whether it is shown.
    fn lookup(&self, label: &str) -> (r: (bool, bool))
        ensures
            r.0 == self@.contains_key(label@),
            r.0 ==> r.1 == self@[label@],
    {
        let n = self.entries.len();
        let mut found = false;
        let mut visible = false;
        let mut i: usize = 0;
        while i < n
            invariant
                n == self.entries@.len(),
                i <= n,
                found == surfaces_of(self.entries@.take(i as int)).contains_key(label@),
                found ==> visible == surfaces_of(self.entries@.take(i as int))[label@],
            decreases n - i,
        {
            assert(self.entries@.take(i + 1).drop_last() =~= self.entries@.take(i as int));
            let e = &self.entries[i];
            if str_equal(e.label.as_str(), label) {
                found = true;
                visible = e.visible;
            }
            i = i + 1;
        }
        assert(self.entries@.take(n as int) =~= self.entries@);
        (found, visible)
    }

    /// Whether a surface with this label is live.
    pub fn contains(&self, label: &str) -> (r: bool)
        ensures
            r == self@.contains_key(label@),
    {
        self.lookup(label).0
    }

    /// Whether a surface with this label is live and shown.
    pub fn is_visible(&self, label: &str) -> (r: bool)
        ensures
            r == (self@.contains_key(label@) && self@[label@]),
    {
        let (found, visible) = self.lookup(label);
        found && visible
    }

    fn forget(&mut self, label: &str)
        ensures
            final(self)@ == old(self)@.remove(label@),
    {
        let n = self.entries.len();
        let mut kept: Vec<SurfaceEntry> = Vec::new();
        let mut i: usize = 0;
        assert(surfaces_of(kept@) =~= surfaces_of(self.entries@.take(0)).remove(label@));
        while i < n
            invariant
                n == self.entries@.len(),
                i <= n,
                surfaces_of(kept@) == surfaces_of(self.entries@.take(i as int)).remove(label@),
            decreases n - i,
        {
            let ghost prev = surfaces_of(self.entries@.take(i as int));
            assert(self.entries@.take(i + 1).drop_last() =~= self.entries@.take(i as int));
            let e = &self.entries[i];
            if !str_equal(e.label.as_str(), label) {
                let ghost before = kept@;
                kept.push(SurfaceEntry { label: e.label.clone(), visible: e.visible });
                assert(kept@.drop_last() =~= before);
                assert(surfaces_of(kept@) =~= prev.insert(e.label@, e.visible).remove(label@));
            } else {
                assert(prev.insert(e.label@, e.visible).remove(label@) =~= prev.remove(label@));
            }
            i = i + 1;
        }
        assert(self.entries@.take(n as int) =~= self.entries@);
        self.entries = kept;
    }

    fn record(&mut self, label: &str, visible: bool)
        ensures
            final(self)@ == old(self)@.insert(label@, visible),
    {
        self.forget(label);
        let ghost before = self.entries@;
        self.entries.push(SurfaceEntry { label: String::from_str(label), visible });
        assert(self.entries@.drop_last() =~= before);
        assert(old(self)@.remove(label@).insert(label@, visible) =~= old(self)@.insert(
            label@,
            visible,
        ));
    }

    /// Records the host's answer to attaching a new surface under `label`;
    /// an attached surface is shown.
    pub fn create_embedded_webview(&mut self, label: &str, attached: Result<(), String>) -> (r:
        Result<(), ShellError>)
        ensures
            final(self)@ == after_create(old(self)@, label@, attached),
            attached is Ok ==> r is Ok && final(self)@ == old(self)@.insert(label@, true),
            attached matches Err(d) ==> r == Err::<(), ShellError>(ShellError::AttachFailed(d))
                && final(self)@ == old(self)@,
    {
        match attached {
            Ok(()) => {
                self.record(label, true);
                Ok(())
            },
            Err(d) => Err(ShellError::AttachFailed(d)),
        }
    }

    /// Moves then resizes a surface. A missing label is no error; the size
    /// is only set once the position was.
    pub fn resize_webview(&mut self, label: &str, position: HostOutcome, size: Result<(), String>) -> (r:
        Result<(), ShellError>)
        ensures
            final(self)@ == settle(old(self)@, label@, position),
            position is Missing ==> r is Ok,
            position matches HostOutcome::Failed(d) ==> r == Err::<(), ShellError>(
                ShellError::PositionFailed(d),
            ),
            position is Done && size is Ok ==> r is Ok,
            position is Done ==> (size matches Err(d) ==> r == Err::<(), ShellError>(
                ShellError::SizeFailed(d),
            )),
    {
        match position {
            HostOutcome::Missing => {
                self.forget(label);
                Ok(())
            },
            HostOutcome::Failed(d) => Err(ShellError::PositionFailed(d)),
            HostOutcome::Done => match size {
                Ok(()) => Ok(()),
                Err(d) => Err(ShellError::SizeFailed(d)),
            },
        }
    }

    /// Shows a surface. A missing label is no error.
    pub fn show_webview(&mut self, label: &str, outcome: HostOutcome) -> (r: Result<(), ShellError>)
        ensures
            final(self)@ == after_visibility(old(self)@, label@, outcome, true),
            outcome is Missing ==> r is Ok && final(self)@ == old(self)@.remove(label@),
            outcome is Done ==> r is Ok && final(self)@ == old(self)@.insert(label@, true),
            outcome matches HostOutcome::Failed(d) ==> r == Err::<(), ShellError>(
                ShellError::ShowFailed(d),
            ) && final(self)@ == old(self)@,
    {
        match outcome {
            HostOutcome::Missing => {
                self.forget(label);
                Ok(())
            },
            HostOutcome::Done => {
                self.record(label, true);
                Ok(())
            },
            HostOutcome::Failed(d) => Err(ShellError::ShowFailed(d)),
        }
    }

    /// Hides a surface. A missing label is no error.
    pub fn hide_webview(&mut self, label: &str, outcome: HostOutcome) -> (r: Result<(), ShellError>)
        ensures
            final(self)@ == after_visibility(old(self)@, label@, outcome, false),
            outcome is Missing ==> r is Ok && final(self)@ == old(self)@.remove(label@),
            outcome is Done ==> r is Ok && final(self)@ == old(self)@.insert(label@, false),
            outcome matches HostOutcome::Failed(d) ==> r == Err::<(), ShellError>(
                ShellError::HideFailed(d),
            ) && final(self)@ == old(self)@,
    {
        match outcome {
            HostOutcome::Missing => {
                self.forget(label);
                Ok(())
            },
            HostOutcome::Done => {
                self.record(label, false);
                Ok(())
            },
            HostOutcome::Failed(d) => Err(ShellError::HideFailed(d)),
        }
    }

    /// Closes a surface; afterwards its label names nothing. A missing label
    /// is no error.
    pub fn destroy_webview(&mut self, label: &str, outcome: HostOutcome) -> (r: Result<(), ShellError>)
        ensures
            final(self)@ == after_destroy(old(self)@, label@, outcome),
            !(outcome is Failed) ==> r is Ok && final(self)@ == old(self)@.remove(label@),
            outcome matches HostOutcome::Failed(d) ==> r == Err::<(), ShellError>(
                ShellError::DestroyFailed(d),
            ) && final(self)@ == old(self)@,
    {
        match outcome {
            HostOutcome::Failed(d) => Err(ShellError::DestroyFailed(d)),
            _ => {
                self.forget(label);
                Ok(())
            },
        }
    }

    /// Records the host's answer to running the opacity script (see
    /// `opacity_script`) in a surface. A missing label is no error.
    pub fn set_webview_opacity(&mut self, label: &str, outcome: HostOutcome) -> (r: Result<(), ShellError>)
        ensures
            final(self)@ == settle(old(self)@, label@, outcome),
            !(outcome is Failed) ==> r is Ok,
            outcome matches HostOutcome::Failed(d) ==> r == Err::<(), ShellError>(
                ShellError::OpacityFailed(d),
            ),
    {
        match outcome {
            HostOutcome::Missing => {
                self.forget(label);
                Ok(())
            },
            HostOutcome::Done => Ok(()),
            HostOutcome::Failed(d) => Err(ShellError::OpacityFailed(d)),
        }
    }

    /// Records the host's answer to running the reload script (see
    /// `refresh_script`) in a surface. A missing label is no error.
    pub fn refresh_webview(&mut self, label: &str, outcome: HostOutcome) -> (r: Result<(), ShellError>)
        ensures
            final(self)@ == settle(old(self)@, label@, outcome),
            !(outcome is Failed) ==> r is Ok,
            outcome matches HostOutcome::Failed(d) ==> r == Err::<(), ShellError>(
                ShellError::RefreshFailed(d),
            ),
    {
        match outcome {
            HostOutcome::Missing => {
                self.forget(label);
                Ok(())
            },
            HostOutcome::Done => Ok(()),
            HostOutcome::Failed(d) => Err(ShellError::RefreshFailed(d)),
        }
    }
}

/// The script that makes a surface's page translucent: it sets the opacity
/// of the root and body elements and adds a style rule that keeps it.
pub open spec fn opacity_script_of(opacity: Seq<char>) -> Seq<char> {
    "\n            // 设置 webview 容器的透明度\n            document.documentElement.style.opacity = '"@ + opacity + "';\n            if (document.body) {\n                document.body.style.opacity = '"@ + opacity + "';\n            }\n            // 设置所有元素的透明度\n            const style = document.createElement('style');\n            style.textContent = `\n                html, body {\n                    opacity: "@ + opacity + " !important;\n                }\n            `;\n            document.head.appendChild(style);\n            "@
}

/// Builds the opacity script for an opacity written out as text.
pub fn opacity_script(opacity: &str) -> (r: String)
    ensures
        r@ == opacity_script_of(opacity@),
{
    let mut s = String::from_str("\n            // 设置 webview 容器的透明度\n            document.documentElement.style.opacity = '");
    s.append(opacity);
    s.append("';\n            if (document.body) {\n                document.body.style.opacity = '");
    s.append(opacity);
    s.append("';\n            }\n            // 设置所有元素的透明度\n            const style = document.createElement('style');\n            style.textContent = `\n                html, body {\n                    opacity: ");
    s.append(opacity);
    s.append(" !important;\n                }\n            `;\n            document.head.appendChild(style);\n            ");
    s
}

/// The script that reloads a surface's page.
pub fn refresh_script() -> (r: &'static str)
    ensures
        r@ == "\n            window.location.reload();\n            "@,
{
    "\n            window.location.reload();\n            "
}

} // verus!
