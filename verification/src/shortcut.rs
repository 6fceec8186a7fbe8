//! The shortcut manager: the accelerator grammar, and the state
//! machine that swaps the global binding in the strict order
//! unregister, register, persist.  The registry and the settings
//! store are the caller's capabilities; the manager decides each step
//! and the caller reports each outcome back.

use vstd::prelude::*;
use vstd::string::*;

use crate::errors::{ClassifiedError, ErrorKind};
use crate::text::{eq_nocase_seq, nocase_eq, str_eq, str_eq_nocase};

verus! {

/// Position of the first '+' of `s`, or -1 when there is none.
pub open spec fn first_plus(s: Seq<char>) -> int
    decreases s.len(),
{
    if s.len() == 0 {
        -1
    } else if s[0] == '+' {
        0
    } else {
        let r = first_plus(s.drop_first());
        if r < 0 {
            -1
        } else {
            r + 1
        }
    }
}

proof fn lemma_first_plus_at(s: Seq<char>, p: int)
    requires
        0 <= p < s.len(),
        s[p] == '+',
        forall|i: int| 0 <= i < p ==> s[i] != '+',
    ensures
        first_plus(s) == p,
    decreases p,
{
    if p > 0 {
        assert(s.drop_first()[p - 1] == s[p]);
        assert forall|i: int| 0 <= i < p - 1 implies s.drop_first()[i] != '+' by {
            assert(s.drop_first()[i] == s[i + 1]);
        }
        lemma_first_plus_at(s.drop_first(), p - 1);
    }
}

proof fn lemma_first_plus_none(s: Seq<char>)
    requires
        forall|i: int| 0 <= i < s.len() ==> s[i] != '+',
    ensures
        first_plus(s) == -1,
    decreases s.len(),
{
    if s.len() > 0 {
        assert forall|i: int| 0 <= i < s.drop_first().len() implies s.drop_first()[i] != '+' by {
            assert(s.drop_first()[i] == s[i + 1]);
        }
        lemma_first_plus_none(s.drop_first());
    }
}

proof fn lemma_eq_nocase_from_forall(a: Seq<char>, b: Seq<char>)
    requires
        a.len() == b.len(),
        forall|i: int| 0 <= i < a.len() ==> nocase_eq(a[i], b[i]),
    ensures
        eq_nocase_seq(a, b),
    decreases a.len(),
{
    if a.len() > 0 {
        assert(nocase_eq(a[0], b[0]));
        assert forall|i: int| 0 <= i < a.drop_first().len() implies nocase_eq(
            a.drop_first()[i],
            b.drop_first()[i],
        ) by {
            assert(a.drop_first()[i] == a[i + 1]);
            assert(b.drop_first()[i] == b[i + 1]);
        }
        lemma_eq_nocase_from_forall(a.drop_first(), b.drop_first());
    }
}

/// The fixed default accelerator parses under the grammar.
pub proof fn lemma_default_shortcut_valid()
    ensures
        accel_valid("CommandOrControl+Shift+A"@),
{
    reveal_strlit("CommandOrControl+Shift+A");
    reveal_strlit("commandorcontrol");
    reveal_strlit("shift");
    let s = "CommandOrControl+Shift+A"@;
    assert(s.len() == 24);
    assert(s[16] == '+');
    assert(forall|i: int| 0 <= i < 16 ==> s[i] != '+');
    lemma_first_plus_at(s, 16);
    let m = s.subrange(0, 16);
    let kw = "commandorcontrol"@;
    assert(m.len() == 16 && kw.len() == 16);
    assert(forall|i: int| 0 <= i < 16 ==> nocase_eq(m[i], kw[i]));
    lemma_eq_nocase_from_forall(m, kw);
    let t = s.subrange(17, 24);
    assert(t.len() == 7);
    assert(t[5] == '+');
    assert(forall|i: int| 0 <= i < 5 ==> t[i] != '+');
    lemma_first_plus_at(t, 5);
    let m2 = t.subrange(0, 5);
    let kw2 = "shift"@;
    assert(m2.len() == 5 && kw2.len() == 5);
    assert(forall|i: int| 0 <= i < 5 ==> nocase_eq(m2[i], kw2[i]));
    lemma_eq_nocase_from_forall(m2, kw2);
    let k = t.subrange(6, 7);
    assert(k.len() == 1 && k[0] == 'A');
    assert(forall|i: int| 0 <= i < k.len() ==> k[i] != '+');
    lemma_first_plus_none(k);
    assert(is_letter_or_digit('A'));
    assert(accel_valid(k));
    assert(accel_valid(t));
    assert(accel_valid(s));
}

/// A modifier token of the accelerator grammar, compared without
/// regard to ASCII case.
pub open spec fn is_modifier_token(t: Seq<char>) -> bool {
    eq_nocase_seq(t, "control"@) || eq_nocase_seq(t, "ctrl"@) || eq_nocase_seq(
        t,
        "commandorcontrol"@,
    ) || eq_nocase_seq(t, "cmdorctrl"@) || eq_nocase_seq(t, "command"@) || eq_nocase_seq(t, "cmd"@)
        || eq_nocase_seq(t, "super"@) || eq_nocase_seq(t, "meta"@) || eq_nocase_seq(t, "shift"@)
        || eq_nocase_seq(t, "alt"@) || eq_nocase_seq(t, "option"@) || eq_nocase_seq(t, "altgr"@)
}

/// An ASCII letter or digit.
pub open spec fn is_letter_or_digit(c: char) -> bool {
    (65 <= c as u32 && c as u32 <= 90) || (97 <= c as u32 && c as u32 <= 122) || (48 <= c as u32
        && c as u32 <= 57)
}

/// A function-key token: F1 through F24.
pub open spec fn is_function_key_token(t: Seq<char>) -> bool {
    (t.len() == 2 && nocase_eq(t[0], 'f') && 49 <= t[1] as u32 && t[1] as u32 <= 57) || (t.len()
        == 3 && nocase_eq(t[0], 'f') && ((t[1] as u32 == 49 && 48 <= t[2] as u32 && t[2] as u32
        <= 57) || (t[1] as u32 == 50 && 48 <= t[2] as u32 && t[2] as u32 <= 52)))
}

/// A named key token of the accelerator grammar.
pub open spec fn is_named_key_token(t: Seq<char>) -> bool {
    eq_nocase_seq(t, "space"@) || eq_nocase_seq(t, "tab"@) || eq_nocase_seq(t, "enter"@)
        || eq_nocase_seq(t, "escape"@) || eq_nocase_seq(t, "backspace"@) || eq_nocase_seq(
        t,
        "delete"@,
    ) || eq_nocase_seq(t, "insert"@) || eq_nocase_seq(t, "home"@) || eq_nocase_seq(t, "end"@)
        || eq_nocase_seq(t, "pageup"@) || eq_nocase_seq(t, "pagedown"@) || eq_nocase_seq(t, "up"@)
        || eq_nocase_seq(t, "down"@) || eq_nocase_seq(t, "left"@) || eq_nocase_seq(t, "right"@)
}

/// The final token of an accelerator: a single letter or digit, a
/// function key, or a named key.
pub open spec fn is_key_token(t: Seq<char>) -> bool {
    (t.len() == 1 && is_letter_or_digit(t[0])) || is_function_key_token(t) || is_named_key_token(t)
}

/// A valid accelerator: zero or more modifier tokens, then one key
/// token, joined by '+'.
pub open spec fn accel_valid(s: Seq<char>) -> bool
    decreases s.len(),
{
    let p = first_plus(s);
    if 0 <= p < s.len() {
        is_modifier_token(s.subrange(0, p)) && accel_valid(s.subrange(p + 1, s.len() as int))
    } else {
        is_key_token(s)
    }
}

fn find_plus(s: &str) -> (r: Option<usize>)
    ensures
        (match r {
            Option::Some(p) => first_plus(s@) == p as int && p < s@.len(),
            Option::None => first_plus(s@) == -1,
        }),
    decreases s@.len(),
{
    let n = s.unicode_len();
    if n == 0 {
        None
    } else if s.get_char(0) == '+' {
        Some(0)
    } else {
        let rest = s.substring_char(1, n);
        proof {
            assert(rest@ =~= s@.drop_first());
        }
        match find_plus(rest) {
            Some(p) => Some(p + 1),
            None => None,
        }
    }
}

fn is_modifier(t: &str) -> (r: bool)
    ensures
        r == is_modifier_token(t@),
{
    str_eq_nocase(t, "control") || str_eq_nocase(t, "ctrl") || str_eq_nocase(t, "commandorcontrol")
        || str_eq_nocase(t, "cmdorctrl") || str_eq_nocase(t, "command") || str_eq_nocase(t, "cmd")
        || str_eq_nocase(t, "super") || str_eq_nocase(t, "meta") || str_eq_nocase(t, "shift")
        || str_eq_nocase(t, "alt") || str_eq_nocase(t, "option") || str_eq_nocase(t, "altgr")
}

fn is_key(t: &str) -> (r: bool)
    ensures
        r == is_key_token(t@),
{
    let n = t.unicode_len();
    if n == 1 {
        let u = t.get_char(0) as u32;
        if (65 <= u && u <= 90) || (97 <= u && u <= 122) || (48 <= u && u <= 57) {
            return true;
        }
    }
    if n == 2 {
        let c1 = t.get_char(1) as u32;
        if char_nocase_f(t.get_char(0)) && 49 <= c1 && c1 <= 57 {
            return true;
        }
    }
    if n == 3 {
        let c1 = t.get_char(1) as u32;
        let c2 = t.get_char(2) as u32;
        if char_nocase_f(t.get_char(0)) && ((c1 == 49 && 48 <= c2 && c2 <= 57) || (c1 == 50 && 48
            <= c2 && c2 <= 52)) {
            return true;
        }
    }
    str_eq_nocase(t, "space") || str_eq_nocase(t, "tab") || str_eq_nocase(t, "enter")
        || str_eq_nocase(t, "escape") || str_eq_nocase(t, "backspace") || str_eq_nocase(
        t,
        "delete",
    ) || str_eq_nocase(t, "insert") || str_eq_nocase(t, "home") || str_eq_nocase(t, "end")
        || str_eq_nocase(t, "pageup") || str_eq_nocase(t, "pagedown") || str_eq_nocase(t, "up")
        || str_eq_nocase(t, "down") || str_eq_nocase(t, "left") || str_eq_nocase(t, "right")
}

fn char_nocase_f(c: char) -> (r: bool)
    ensures
        r == nocase_eq(c, 'f'),
{
    let u = c as u32;
    u == 102 || u == 70
}

/// Check a raw string against the accelerator grammar.
pub fn validate_shortcut(raw: &str) -> (r: bool)
    ensures
        r == accel_valid(raw@),
    decreases raw@.len(),
{
    let n = raw.unicode_len();
    match find_plus(raw) {
        None => is_key(raw),
        Some(p) => {
            let head = raw.substring_char(0, p);
            let tail = raw.substring_char(p + 1, n);
            proof {
                assert(head@ =~= raw@.subrange(0, p as int));
                assert(tail@ =~= raw@.subrange(p as int + 1, raw@.len() as int));
            }
            if is_modifier(head) {
                validate_shortcut(tail)
            } else {
                false
            }
        },
    }
}

/// The fixed default accelerator.
pub fn default_shortcut() -> (r: String)
    ensures
        r@ == "CommandOrControl+Shift+A"@,
{
    "CommandOrControl+Shift+A".to_owned()
}

/// Where the current binding came from.
#[derive(Clone, Copy, Debug, PartialEq, Eq, Structural)]
pub enum BindingSource {
    FromDefault,
    FromUser,
}

/// Where a running swap stands.
#[derive(Clone, Copy, Debug, PartialEq, Eq, Structural)]
pub enum SwapPhase {
    Idle,
    AwaitUnregister,
    AwaitRegister,
    AwaitPersist,
}

/// The next capability call the caller must perform for a swap.
#[derive(Debug)]
pub enum SwapAction {
    /// Unregister every current binding (best effort; a "nothing was
    /// registered" failure is non-fatal).
    UnregisterAll,
    /// Register the carried accelerator.
    Register(String),
    /// Persist the carried accelerator to the settings store, then flush.
    Persist(String),
}

/// Owns the current shortcut binding and drives its atomic swap.
pub struct ShortcutManager {
    /// The raw accelerator the manager presents (and, once a swap
    /// commits, the persisted one).
    pub current: String,
    /// Whether the current value is the fixed default or user-chosen.
    pub source: BindingSource,
    /// Whether a binding is registered with the registry right now.
    pub bound: bool,
    /// The accelerator a running swap is installing.
    pub pending: Option<String>,
    /// Where the running swap stands.
    pub phase: SwapPhase,
}

impl ShortcutManager {
    /// The presented accelerator always parses; a pending accelerator
    /// exists exactly while a swap is running, and parses too.
    pub open spec fn wf(self) -> bool {
        accel_valid(self.current@) && ((self.phase is Idle) == (self.pending is None)) && (
        match self.pending {
            Option::Some(p) => accel_valid(p@),
            Option::None => true,
        })
    }

    /// Startup: adopt the persisted raw value when it parses, else
    /// fall back to the fixed default.  Nothing is registered yet.
    pub fn startup(stored: Option<String>) -> (r: ShortcutManager)
        ensures
            r.wf(),
            r.phase is Idle,
            r.pending is None,
            !r.bound,
            (match stored {
                Option::Some(s) => (accel_valid(s@) ==> r.current@ == s@ && r.source
                    is FromUser) && (!accel_valid(s@) ==> r.current@
                    == "CommandOrControl+Shift+A"@ && r.source is FromDefault),
                Option::None => r.current@ == "CommandOrControl+Shift+A"@ && r.source
                    is FromDefault,
            }),
    {
        proof {
            lemma_default_shortcut_valid();
        }
        match stored {
            Some(s) => {
                if validate_shortcut(s.as_str()) {
                    ShortcutManager {
                        current: s,
                        source: BindingSource::FromUser,
                        bound: false,
                        pending: None,
                        phase: SwapPhase::Idle,
                    }
                } else {
                    ShortcutManager {
                        current: default_shortcut(),
                        source: BindingSource::FromDefault,
                        bound: false,
                        pending: None,
                        phase: SwapPhase::Idle,
                    }
                }
            },
            None => ShortcutManager {
                current: default_shortcut(),
                source: BindingSource::FromDefault,
                bound: false,
                pending: None,
                phase: SwapPhase::Idle,
            },
        }
    }

    /// The raw accelerator currently presented.
    pub fn get_shortcut(&self) -> (r: String)
        ensures
            r@ == self.current@,
    {
        self.current.clone()
    }

    /// Start swapping to `new_raw`.  A string outside the grammar
    /// fails with `InvalidShortcutSyntax` and changes nothing; a
    /// valid one opens the swap, whose first step is to unregister
    /// the old binding.
    pub fn begin_swap(&mut self, new_raw: String) -> (r: Result<SwapAction, ClassifiedError>)
        requires
            old(self).wf(),
            old(self).phase is Idle,
        ensures
            final(self).wf(),
            !accel_valid(new_raw@) ==> (r matches Err(e) && e.kind
                == ErrorKind::InvalidShortcutSyntax && e.detail@ == new_raw@ && *final(self) == *old(self)),
            accel_valid(new_raw@) ==> (r matches Ok(a) && a is UnregisterAll && final(self).phase
                is AwaitUnregister && final(self).pending == Some(new_raw) && final(self).current@
                == old(self).current@ && final(self).bound == old(self).bound && final(self).source
                == old(self).source),
    {
        if validate_shortcut(new_raw.as_str()) {
            self.pending = Some(new_raw);
            self.phase = SwapPhase::AwaitUnregister;
            Ok(SwapAction::UnregisterAll)
        } else {
            Err(ClassifiedError::new(ErrorKind::InvalidShortcutSyntax, new_raw))
        }
    }

    /// Start a swap back to the fixed default accelerator.
    pub fn begin_reset(&mut self) -> (r: Result<SwapAction, ClassifiedError>)
        requires
            old(self).wf(),
            old(self).phase is Idle,
        ensures
            final(self).wf(),
            r matches Ok(a) && a is UnregisterAll,
            final(self).phase is AwaitUnregister,
            final(self).pending matches Some(p) && p@ == "CommandOrControl+Shift+A"@,
            final(self).current@ == old(self).current@,
            final(self).bound == old(self).bound,
            final(self).source == old(self).source,
    {
        proof {
            lemma_default_shortcut_valid();
        }
        self.begin_swap(default_shortcut())
    }

    /// The registry finished the best-effort unregister; no binding
    /// is active now, and the new one must be registered.
    pub fn on_unregistered(&mut self) -> (r: SwapAction)
        requires
            old(self).wf(),
            old(self).phase is AwaitUnregister,
        ensures
            final(self).wf(),
            final(self).phase is AwaitRegister,
            !final(self).bound,
            final(self).pending == old(self).pending,
            final(self).current@ == old(self).current@,
            final(self).source == old(self).source,
            r matches SwapAction::Register(p) && p@ == old(self).pending.unwrap()@,
    {
        self.bound = false;
        self.phase = SwapPhase::AwaitRegister;
        let p = match &self.pending {
            Some(p) => p.clone(),
            None => unreached(),
        };
        SwapAction::Register(p)
    }

    /// The registry answered the register call.  Success moves the
    /// swap to persistence; failure ends the swap with the binding
    /// unregistered, surfaced as `RegistrationFailed`.
    pub fn on_register_result(&mut self, ok: bool, detail: String) -> (r: Result<
        SwapAction,
        ClassifiedError,
    >)
        requires
            old(self).wf(),
            old(self).phase is AwaitRegister,
        ensures
            final(self).wf(),
            final(self).current@ == old(self).current@,
            ok ==> (r matches Ok(SwapAction::Persist(p)) && p@ == old(self).pending.unwrap()@
                && final(self).phase is AwaitPersist && final(self).bound && final(self).pending
                == old(self).pending && final(self).source == old(self).source),
            !ok ==> (r matches Err(e) && e.kind == ErrorKind::RegistrationFailed && e.detail@
                == detail@ && final(self).phase is Idle && !final(self).bound && final(self).pending is None && final(self).source == old(self).source),
    {
        if ok {
            self.bound = true;
            self.phase = SwapPhase::AwaitPersist;
            let p = match &self.pending {
                Some(p) => p.clone(),
                None => unreached(),
            };
            Ok(SwapAction::Persist(p))
        } else {
            self.bound = false;
            self.pending = None;
            self.phase = SwapPhase::Idle;
            Err(ClassifiedError::new(ErrorKind::RegistrationFailed, detail))
        }
    }

    /// The store answered the persist call.  Only now, with the new
    /// binding registered and persisted, does the presented value
    /// change; a persistence failure keeps the old presented value
    /// (the store still holds it) and is surfaced as
    /// `PersistenceFailure`, though the new binding stays registered.
    pub fn on_persist_result(&mut self, ok: bool, detail: String) -> (r: Result<
        (),
        ClassifiedError,
    >)
        requires
            old(self).wf(),
            old(self).phase is AwaitPersist,
        ensures
            final(self).wf(),
            final(self).phase is Idle,
            final(self).pending is None,
            final(self).bound == old(self).bound,
            ok ==> (r is Ok && final(self).current@ == old(self).pending.unwrap()@ && ((final(self).source is FromDefault) <==> old(self).pending.unwrap()@
                == "CommandOrControl+Shift+A"@)),
            !ok ==> (r matches Err(e) && e.kind == ErrorKind::PersistenceFailure && e.detail@
                == detail@ && final(self).current@ == old(self).current@ && final(self).source
                == old(self).source),
    {
        let p = match &self.pending {
            Some(p) => p.clone(),
            None => unreached(),
        };
        self.pending = None;
        self.phase = SwapPhase::Idle;
        if ok {
            let is_default = str_eq(p.as_str(), "CommandOrControl+Shift+A");
            self.source = if is_default {
                BindingSource::FromDefault
            } else {
                BindingSource::FromUser
            };
            self.current = p;
            Ok(())
        } else {
            Err(ClassifiedError::new(ErrorKind::PersistenceFailure, detail))
        }
    }
}

} // verus!
