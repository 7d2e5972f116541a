//! Dependency expressions: boolean combinations of feature names.
//!
//! A `depends` attribute holds names joined by `+` (and) and `,` (or), with parentheses for
//! grouping. `+` binds tighter than `,`.

use vstd::prelude::*;
use vstd::string::*;
use crate::attribs::FromText;

verus! {

/// A dependency expression.
#[derive(Debug)]
pub enum Depends {
    /// The named feature or extension.
    Feature(String),
    /// All of the operands.
    And(Vec<Depends>),
    /// One of the operands.
    Or(Vec<Depends>),
}

/// A `Depends` with its names as character sequences.
pub ghost enum DependsView {
    Feature(Seq<char>),
    And(Seq<DependsView>),
    Or(Seq<DependsView>),
}

impl DeepView for Depends {
    type V = DependsView;

    open spec fn deep_view(&self) -> DependsView
        decreases self,
    {
        match self {
            Depends::Feature(name) => DependsView::Feature(name@),
            Depends::And(operands) => DependsView::And(
                Seq::new(
                    operands@.len(),
                    |i: int|
                        if 0 <= i < operands@.len() {
                            operands@[i].deep_view()
                        } else {
                            DependsView::Feature(Seq::empty())
                        },
                ),
            ),
            Depends::Or(operands) => DependsView::Or(
                Seq::new(
                    operands@.len(),
                    |i: int|
                        if 0 <= i < operands@.len() {
                            operands@[i].deep_view()
                        } else {
                            DependsView::Feature(Seq::empty())
                        },
                ),
            ),
        }
    }
}

/// Whether a character can stand in a name: anything but the operators and parentheses.
pub open spec fn is_name_char(c: char) -> bool {
    c != '(' && c != ')' && c != ',' && c != '+'
}

/// Where the run of name characters that begins at `i` ends.
pub open spec fn name_end(s: Seq<char>, i: int) -> int
    decreases s.len() - i,
{
    if 0 <= i < s.len() && is_name_char(s[i]) {
        name_end(s, i + 1)
    } else {
        i
    }
}

/// `first + rest`, where the operands of a conjunction on the right join those on the left.
pub open spec fn join_and(first: DependsView, rest: DependsView) -> DependsView {
    match rest {
        DependsView::And(operands) => DependsView::And(seq![first] + operands),
        _ => DependsView::And(seq![first, rest]),
    }
}

/// `first , rest`, where the operands of a disjunction on the right join those on the left.
pub open spec fn join_or(first: DependsView, rest: DependsView) -> DependsView {
    match rest {
        DependsView::Or(operands) => DependsView::Or(seq![first] + operands),
        _ => DependsView::Or(seq![first, rest]),
    }
}

/// An operand at `i`: a parenthesised expression or a name. Gives the operand and the place
/// after it.
pub open spec fn spec_paren(s: Seq<char>, i: int) -> Option<(DependsView, int)>
    decreases s.len() - i, 0int,
{
    if 0 <= i < s.len() && s[i] == '(' {
        match spec_or(s, i + 1) {
            Some((inner, j)) => if 0 <= j < s.len() && s[j] == ')' {
                Some((inner, j + 1))
            } else {
                None
            },
            None => None,
        }
    } else {
        let j = name_end(s, i);
        if 0 <= i < j <= s.len() {
            Some((DependsView::Feature(s.subrange(i, j)), j))
        } else {
            None
        }
    }
}

/// A conjunction at `i`: operands joined by `+`.
pub open spec fn spec_and(s: Seq<char>, i: int) -> Option<(DependsView, int)>
    decreases s.len() - i, 1int,
{
    match spec_paren(s, i) {
        None => None,
        Some((first, j)) => if i < j < s.len() && s[j] == '+' {
            match spec_and(s, j + 1) {
                Some((rest, k)) => Some((join_and(first, rest), k)),
                None => None,
            }
        } else {
            Some((first, j))
        },
    }
}

/// A disjunction at `i`: conjunctions joined by `,`.
pub open spec fn spec_or(s: Seq<char>, i: int) -> Option<(DependsView, int)>
    decreases s.len() - i, 2int,
{
    match spec_and(s, i) {
        None => None,
        Some((first, j)) => if i < j < s.len() && s[j] == ',' {
            match spec_or(s, j + 1) {
                Some((rest, k)) => Some((join_or(first, rest), k)),
                None => None,
            }
        } else {
            Some((first, j))
        },
    }
}

/// The expression that a text spells, if the whole text is one expression.
pub open spec fn spec_depends(s: Seq<char>) -> Option<DependsView> {
    match spec_or(s, 0) {
        Some((d, j)) => if j == s.len() {
            Some(d)
        } else {
            None
        },
        None => None,
    }
}

/// The view of a list of operands after one more is put in front.
proof fn lemma_operands_view(first: Depends, rest: Vec<Depends>, all: Vec<Depends>)
    requires
        all@ == seq![first] + rest@,
    ensures
        Depends::And(all).deep_view() == DependsView::And(
            seq![first.deep_view()] + Depends::And(rest).deep_view()->And_0,
        ),
        Depends::Or(all).deep_view() == DependsView::Or(
            seq![first.deep_view()] + Depends::Or(rest).deep_view()->Or_0,
        ),
{
    let a = Depends::And(all).deep_view()->And_0;
    let b = seq![first.deep_view()] + Depends::And(rest).deep_view()->And_0;
    assert(a.len() == b.len());
    assert forall|i: int| 0 <= i < a.len() implies a[i] == b[i] by {
        if i > 0 {
            assert(all@[i] == rest@[i - 1]);
        }
    }
    assert(a =~= b);
    let c = Depends::Or(all).deep_view()->Or_0;
    let d = seq![first.deep_view()] + Depends::Or(rest).deep_view()->Or_0;
    assert(c.len() == d.len());
    assert forall|i: int| 0 <= i < c.len() implies c[i] == d[i] by {
        if i > 0 {
            assert(all@[i] == rest@[i - 1]);
        }
    }
    assert(c =~= d);
}

/// Puts `first` in front of the operands `rest`.
fn prepend(first: Depends, rest: Vec<Depends>) -> (all: Vec<Depends>)
    ensures
        all@ == seq![first] + rest@,
{
    let mut all: Vec<Depends> = Vec::new();
    all.push(first);
    let mut rest = rest;
    all.append(&mut rest);
    all
}

impl Depends {
    /// Reads an expression at `i` of the text `s`. Gives the expression and the place after
    /// it.
    pub fn parse(s: &str, i: usize) -> (r: Option<(Depends, usize)>)
        ensures
            match r {
                Some((d, j)) => spec_or(s@, i as int) == Some((d.deep_view(), j as int)) && i <= j
                    <= s@.len(),
                None => spec_or(s@, i as int) is None,
            },
        decreases s@.len() - i, 3int,
    {
        Self::parse_or(s, i)
    }

    /// Reads a disjunction at `i`.
    pub fn parse_or(s: &str, i: usize) -> (r: Option<(Depends, usize)>)
        ensures
            match r {
                Some((d, j)) => spec_or(s@, i as int) == Some((d.deep_view(), j as int)) && i <= j
                    <= s@.len(),
                None => spec_or(s@, i as int) is None,
            },
        decreases s@.len() - i, 2int,
    {
        match Self::parse_and(s, i) {
            None => None,
            Some((first, j)) => {
                if i < j && j < s.unicode_len() && s.get_char(j) == ',' {
                    match Self::parse_or(s, j + 1) {
                        None => None,
                        Some((rest, k)) => {
                            let joined = match rest {
                                Depends::Or(operands) => {
                                    let all = prepend(first, operands);
                                    proof {
                                        lemma_operands_view(first, operands, all);
                                    }
                                    Depends::Or(all)
                                },
                                other => {
                                    let all = prepend(first, vec![other]);
                                    proof {
                                        assert(Depends::Or(all).deep_view()->Or_0 =~= seq![
                                            first.deep_view(),
                                            other.deep_view(),
                                        ]);
                                    }
                                    Depends::Or(all)
                                },
                            };
                            Some((joined, k))
                        },
                    }
                } else {
                    Some((first, j))
                }
            },
        }
    }

    /// Reads an operand at `i`: a parenthesised expression or a name.
    pub fn parse_paren(s: &str, i: usize) -> (r: Option<(Depends, usize)>)
        ensures
            match r {
                Some((d, j)) => spec_paren(s@, i as int) == Some((d.deep_view(), j as int)) && i
                    <= j <= s@.len(),
                None => spec_paren(s@, i as int) is None,
            },
        decreases s@.len() - i, 0int,
    {
        let n = s.unicode_len();
        if i >= n {
            return None;
        }
        if s.get_char(i) == '(' {
            match Self::parse(s, i + 1) {
                Some((inner, j)) => {
                    if j < n && s.get_char(j) == ')' {
                        Some((inner, j + 1))
                    } else {
                        None
                    }
                },
                None => None,
            }
        } else {
            let mut j: usize = i;
            while j < n && is_name(s.get_char(j))
                invariant
                    n == s@.len(),
                    i <= j <= s@.len(),
                    name_end(s@, i as int) == name_end(s@, j as int),
                decreases n - j,
            {
                j += 1;
            }
            if j > i && j <= n {
                Some((Depends::Feature(String::from_str(s.substring_char(i, j))), j))
            } else {
                None
            }
        }
    }

    /// Reads a conjunction at `i`.
    pub fn parse_and(s: &str, i: usize) -> (r: Option<(Depends, usize)>)
        ensures
            match r {
                Some((d, j)) => spec_and(s@, i as int) == Some((d.deep_view(), j as int)) && i <= j
                    <= s@.len(),
                None => spec_and(s@, i as int) is None,
            },
        decreases s@.len() - i, 1int,
    {
        match Self::parse_paren(s, i) {
            None => None,
            Some((first, j)) => {
                if i < j && j < s.unicode_len() && s.get_char(j) == '+' {
                    match Self::parse_and(s, j + 1) {
                        None => None,
                        Some((rest, k)) => {
                            let joined = match rest {
                                Depends::And(operands) => {
                                    let all = prepend(first, operands);
                                    proof {
                                        lemma_operands_view(first, operands, all);
                                    }
                                    Depends::And(all)
                                },
                                other => {
                                    let all = prepend(first, vec![other]);
                                    proof {
                                        assert(Depends::And(all).deep_view()->And_0 =~= seq![
                                            first.deep_view(),
                                            other.deep_view(),
                                        ]);
                                    }
                                    Depends::And(all)
                                },
                            };
                            Some((joined, k))
                        },
                    }
                } else {
                    Some((first, j))
                }
            },
        }
    }
}

/// Whether a character can stand in a name.
fn is_name(c: char) -> (r: bool)
    ensures
        r == is_name_char(c),
{
    c != '(' && c != ')' && c != ',' && c != '+'
}

impl FromText for Depends {
    open spec fn spec_from_str(s: Seq<char>) -> Option<DependsView> {
        spec_depends(s)
    }

    fn from_str(s: &str) -> (r: Result<Depends, ()>) {
        match Depends::parse(s, 0) {
            Some((d, j)) => if j == s.unicode_len() {
                Ok(d)
            } else {
                Err(())
            },
            None => Err(()),
        }
    }
}

} // verus!
