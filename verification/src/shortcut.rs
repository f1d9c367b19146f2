//! The `[shortcut]` section of the configuration: the prefix mode keys of the core plus the
//! modifier combination of the shell.
use vstd::prelude::*;

verus! {

/// A combination of modifier keys.
#[derive(Debug, Clone, Copy, PartialEq, Eq, Structural)]
pub struct Modifiers {
    pub control: bool,
    pub shift: bool,
    pub alt: bool,
    pub command: bool,
}

impl Modifiers {
    /// Shift alone.
    pub open spec fn spec_shift() -> Modifiers {
        Modifiers { control: false, shift: true, alt: false, command: false }
    }

    /// Shift alone.
    #[verifier::when_used_as_spec(spec_shift)]
    pub fn shift() -> (m: Modifiers)
        ensures
            m == Self::spec_shift(),
            m.shift && !m.control && !m.alt && !m.command,
    {
        Modifiers { control: false, shift: true, alt: false, command: false }
    }

    /// No modifier at all.
    pub open spec fn spec_is_empty(&self) -> bool {
        !self.control && !self.shift && !self.alt && !self.command
    }

    /// Whether no modifier is held.
    #[verifier::when_used_as_spec(spec_is_empty)]
    pub fn is_empty(&self) -> (empty: bool)
        ensures
            empty == self.spec_is_empty(),
    {
        !self.control && !self.shift && !self.alt && !self.command
    }
}

impl Default for Modifiers {
    fn default() -> (m: Modifiers)
        ensures
            m.spec_is_empty(),
    {
        Modifiers { control: false, shift: false, alt: false, command: false }
    }
}

/// The keys that open the prefix modes of the engine.
#[derive(Debug, Clone, Copy, PartialEq, Eq, Structural)]
pub struct ModeKeys {
    /// The key that opens expression mode.
    pub expression: char,
    /// The key that opens question mode.
    pub question: char,
}

impl Default for ModeKeys {
    fn default() -> (keys: ModeKeys)
        ensures
            keys.expression == 'v',
            keys.question == 'u',
    {
        ModeKeys { expression: 'v', question: 'u' }
    }
}

/// The `[shortcut]` section.
#[derive(Debug, Clone, Copy, PartialEq, Eq, Structural)]
pub struct ShortcutConfig {
    /// Expression and question mode keys.
    pub mode: ModeKeys,
    /// Held together with a digit key: delete that candidate (a user word is removed, the
    /// learning about a dictionary word is cleared).
    pub delete_candidate: Modifiers,
}

/// The value of a missing `[shortcut]` section.
pub open spec fn default_shortcut_config() -> ShortcutConfig {
    ShortcutConfig { mode: ModeKeys { expression: 'v', question: 'u' }, delete_candidate: Modifiers::shift() }
}

impl Default for ShortcutConfig {
    fn default() -> (config: ShortcutConfig)
        ensures
            config == default_shortcut_config(),
            config.delete_candidate.shift && !config.delete_candidate.control
                && !config.delete_candidate.alt && !config.delete_candidate.command,
    {
        ShortcutConfig { mode: ModeKeys::default(), delete_candidate: Modifiers::shift() }
    }
}

impl ShortcutConfig {
    /// The modifiers that delete a candidate; the default ones when none are configured.
    pub fn delete_keys(&self) -> (keys: Modifiers)
        ensures
            keys == (if self.delete_candidate.spec_is_empty() {
                Modifiers::shift()
            } else {
                self.delete_candidate
            }),
            !keys.spec_is_empty(),
            !self.delete_candidate.control && !self.delete_candidate.shift
                && !self.delete_candidate.alt && !self.delete_candidate.command ==> keys.shift
                && !keys.control && !keys.alt && !keys.command,
            self.delete_candidate.control || self.delete_candidate.shift
                || self.delete_candidate.alt || self.delete_candidate.command ==> keys
                == self.delete_candidate,
    {
        if self.delete_candidate.is_empty() {
            Self::default().delete_candidate
        } else {
            self.delete_candidate
        }
    }
}

/// Shift alone deletes a candidate unless the configuration names other modifiers: the default
/// section holds Shift and nothing else, and so does the fallback for an empty combination.
pub proof fn law_default_delete_keys_are_shift()
    ensures
        Modifiers::spec_shift().shift,
        !Modifiers::spec_shift().control,
        !Modifiers::spec_shift().alt,
        !Modifiers::spec_shift().command,
        default_shortcut_config().delete_candidate == Modifiers::spec_shift(),
        default_shortcut_config().mode.expression == 'v',
        default_shortcut_config().mode.question == 'u',
{
}

/// A combination is empty exactly when no modifier key is in it.
pub proof fn law_empty_means_no_modifier(m: Modifiers)
    ensures
        m.spec_is_empty() <==> (!m.control && !m.shift && !m.alt && !m.command),
{
}

} // verus!
