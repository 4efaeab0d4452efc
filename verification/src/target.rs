//! Deciding whether a binding's declared target restrictions fit the running target.
use vstd::prelude::*;
use vstd::string::*;

verus! {

/// Which of a binding's two restrictions a target breaks.
#[derive(Clone, Copy, Debug, PartialEq, Eq, Structural)]
pub enum Constraint {
    /// The binding is restricted to one operating system.
    Os,
    /// The binding is restricted to one platform family.
    Family,
}

/// A restriction that the running target does not meet.
#[derive(Debug)]
pub struct TargetMismatch {
    /// The restriction that is broken.
    pub constraint: Constraint,
    /// The value the binding is restricted to.
    pub expected: String,
    /// The value of the running target.
    pub actual: String,
}

/// The characters of an optional text, if there is one.
pub open spec fn optional_text(declared: Option<&str>) -> Option<Seq<char>> {
    match declared {
        Some(text) => Some(text@),
        None => None,
    }
}

/// A restriction admits a value when it is absent or names exactly that value.
pub open spec fn admits(declared: Option<Seq<char>>, actual: Seq<char>) -> bool {
    declared matches Some(text) ==> text == actual
}

/// A target suits a binding when both of the binding's restrictions admit it.
pub open spec fn suits(
    declared_os: Option<Seq<char>>,
    declared_family: Option<Seq<char>>,
    os: Seq<char>,
    family: Seq<char>,
) -> bool {
    admits(declared_os, os) && admits(declared_family, family)
}

/// The first restriction that the target breaks, the operating system before the
/// family, with the expected and the actual value; `None` when the target suits.
pub open spec fn first_violation(
    declared_os: Option<Seq<char>>,
    declared_family: Option<Seq<char>>,
    os: Seq<char>,
    family: Seq<char>,
) -> Option<(Constraint, Seq<char>, Seq<char>)> {
    if !admits(declared_os, os) {
        Some((Constraint::Os, declared_os->0, os))
    } else if !admits(declared_family, family) {
        Some((Constraint::Family, declared_family->0, family))
    } else {
        None
    }
}

impl TargetMismatch {
    /// The mismatch as the triple that [`first_violation`] speaks of.
    pub open spec fn view(&self) -> (Constraint, Seq<char>, Seq<char>) {
        (self.constraint, self.expected@, self.actual@)
    }

    /// The text of the diagnostic for a given mismatch.
    pub open spec fn message_text(
        constraint: Constraint,
        expected: Seq<char>,
        actual: Seq<char>,
    ) -> Seq<char> {
        let key = match constraint {
            Constraint::Os => "target_os"@,
            Constraint::Family => "target_family"@,
        };
        "Invalid target. Attempted to use binding valid only for `"@ + key + " = "@ + expected
            + "` on a build with `"@ + key + " = "@ + actual + "`"@
    }

    /// The diagnostic that names the broken restriction, the value it expects and
    /// the value of the running target.
    pub fn message(&self) -> (text: String)
        ensures
            text@ == Self::message_text(self.constraint, self.expected@, self.actual@),
    {
        let key = match self.constraint {
            Constraint::Os => "target_os",
            Constraint::Family => "target_family",
        };
        let mut text = String::from_str(
            "Invalid target. Attempted to use binding valid only for `",
        );
        text.append(key);
        text.append(" = ");
        text.append(self.expected.as_str());
        text.append("` on a build with `");
        text.append(key);
        text.append(" = ");
        text.append(self.actual.as_str());
        text.append("`");
        text
    }
}

/// Whether two texts hold the same characters.
pub fn same_text(a: &str, b: &str) -> (r: bool)
    ensures
        r == (a@ == b@),
{
    let n = a.unicode_len();
    if n != b.unicode_len() {
        return false;
    }
    let mut i: usize = 0;
    while i < n
        invariant
            n == a@.len(),
            n == b@.len(),
            i <= n,
            forall|k: int| 0 <= k < i ==> a@[k] == b@[k],
        decreases n - i,
    {
        if a.get_char(i) != b.get_char(i) {
            return false;
        }
        i += 1;
    }
    assert(a@ =~= b@);
    true
}

/// Holds the two restrictions of a binding against the running target.
///
/// Returns `Ok` exactly when the target suits; otherwise the first restriction
/// that is broken, the operating system before the family.
pub fn check(
    declared_os: Option<&str>,
    declared_family: Option<&str>,
    os: &str,
    family: &str,
) -> (r: Result<(), TargetMismatch>)
    ensures
        r is Ok <==> suits(optional_text(declared_os), optional_text(declared_family), os@, family@),
        match r {
            Ok(_) => first_violation(
                optional_text(declared_os),
                optional_text(declared_family),
                os@,
                family@,
            ) is None,
            Err(mismatch) => first_violation(
                optional_text(declared_os),
                optional_text(declared_family),
                os@,
                family@,
            ) == Some(mismatch@),
        },
{
    if let Some(expected) = declared_os {
        if !same_text(expected, os) {
            return Err(
                TargetMismatch {
                    constraint: Constraint::Os,
                    expected: String::from_str(expected),
                    actual: String::from_str(os),
                },
            );
        }
    }
    if let Some(expected) = declared_family {
        if !same_text(expected, family) {
            return Err(
                TargetMismatch {
                    constraint: Constraint::Family,
                    expected: String::from_str(expected),
                    actual: String::from_str(family),
                },
            );
        }
    }
    Ok(())
}

/// A target suits a binding restricted to exactly that target's operating
/// system and family, and a binding with no restriction suits every target.
pub proof fn law_own_target_suits(os: Seq<char>, family: Seq<char>)
    ensures
        suits(Some(os), Some(family), os, family),
        suits(Some(os), None, os, family),
        suits(None, Some(family), os, family),
        suits(None, None, os, family),
        first_violation(Some(os), Some(family), os, family) is None,
{
}

/// A binding restricted to another operating system than the target's does not
/// suit, whatever its family restriction, and the operating system is the
/// restriction reported.
pub proof fn law_other_os_is_refused(
    declared_os: Seq<char>,
    declared_family: Option<Seq<char>>,
    os: Seq<char>,
    family: Seq<char>,
)
    requires
        declared_os != os,
    ensures
        !suits(Some(declared_os), declared_family, os, family),
        first_violation(Some(declared_os), declared_family, os, family) == Some(
            (Constraint::Os, declared_os, os),
        ),
{
}

/// A binding restricted to another family than the target's does not suit; the
/// family is the restriction reported when the operating system is admitted.
pub proof fn law_other_family_is_refused(
    declared_os: Option<Seq<char>>,
    declared_family: Seq<char>,
    os: Seq<char>,
    family: Seq<char>,
)
    requires
        declared_family != family,
    ensures
        !suits(declared_os, Some(declared_family), os, family),
        admits(declared_os, os) ==> first_violation(declared_os, Some(declared_family), os, family)
            == Some((Constraint::Family, declared_family, family)),
{
}

/// A target suits exactly when no restriction is broken.
pub proof fn law_suits_iff_no_violation(
    declared_os: Option<Seq<char>>,
    declared_family: Option<Seq<char>>,
    os: Seq<char>,
    family: Seq<char>,
)
    ensures
        suits(declared_os, declared_family, os, family) <==> first_violation(
            declared_os,
            declared_family,
            os,
            family,
        ) is None,
{
}

} // verus!
