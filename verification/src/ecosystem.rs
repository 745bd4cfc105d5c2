//! The closed set of recognized build/test toolchains, and detection of the
//! toolchain a directory uses from the file names it contains.

use vstd::prelude::*;

verus! {

/// A recognized build/test toolchain. Each variant carries a fixed marker
/// filename used for detection and a fixed test invocation.
#[derive(Clone, Copy, Debug, PartialEq, Eq, Structural)]
pub enum Ecosystem {
    Rust,
    Elixir,
}

/// The marker filename whose presence inside a directory signals `e`.
pub open spec fn marker_view(e: Ecosystem) -> Seq<char> {
    match e {
        Ecosystem::Rust => "Cargo.toml"@,
        Ecosystem::Elixir => "mix.exs"@,
    }
}

/// The name of the toolchain binary that runs `e`'s tests.
pub open spec fn program_view(e: Ecosystem) -> Seq<char> {
    match e {
        Ecosystem::Rust => "cargo"@,
        Ecosystem::Elixir => "mix"@,
    }
}

/// The views of a directory's file names.
pub open spec fn file_views(files: Seq<String>) -> Seq<Seq<char>> {
    files.map_values(|f: String| f@)
}

/// Whether a directory whose file names are `files` contains `e`'s marker.
pub open spec fn has_marker(files: Seq<Seq<char>>, e: Ecosystem) -> bool {
    exists|i: int| 0 <= i < files.len() && files[i] == marker_view(e)
}

/// What detection returns for a directory whose file names are `files`:
/// the first ecosystem, in the fixed priority order, whose marker is
/// present, or nothing when no marker is present.
pub open spec fn detect_view(files: Seq<Seq<char>>) -> Option<Ecosystem> {
    if has_marker(files, Ecosystem::Rust) {
        Some(Ecosystem::Rust)
    } else if has_marker(files, Ecosystem::Elixir) {
        Some(Ecosystem::Elixir)
    } else {
        None
    }
}

/// A directory containing some recognized marker detects as an ecosystem
/// whose marker it contains; one containing none detects as nothing.
pub proof fn lemma_detect_marker(files: Seq<Seq<char>>)
    ensures
        (exists|e: Ecosystem| has_marker(files, e)) <==> detect_view(files) is Some,
        detect_view(files) matches Some(e) ==> has_marker(files, e),
{
    if detect_view(files) is None {
        assert forall|e: Ecosystem| !has_marker(files, e) by {
            match e {
                Ecosystem::Rust => {},
                Ecosystem::Elixir => {},
            }
        }
    }
}

/// When a directory holds markers of both ecosystems, the one earlier in
/// the fixed priority order wins, every time.
pub proof fn lemma_detect_priority(files: Seq<Seq<char>>)
    requires
        has_marker(files, Ecosystem::Rust),
    ensures
        detect_view(files) == Some(Ecosystem::Rust),
{
}

impl Ecosystem {
    /// The marker filename whose presence inside a directory signals `self`.
    pub fn marker(&self) -> (r: String)
        ensures
            r@ == marker_view(*self),
    {
        match self {
            Ecosystem::Rust => "Cargo.toml".to_owned(),
            Ecosystem::Elixir => "mix.exs".to_owned(),
        }
    }

    /// The name of the toolchain binary that runs this ecosystem's tests.
    pub fn test_program(&self) -> (r: String)
        ensures
            r@ == program_view(*self),
    {
        match self {
            Ecosystem::Rust => "cargo".to_owned(),
            Ecosystem::Elixir => "mix".to_owned(),
        }
    }

    /// The arguments handed to the toolchain binary: the bare `test`
    /// subcommand, with no extra flags, for either ecosystem.
    pub fn test_args(&self) -> (r: Vec<String>)
        ensures
            r@.len() == 1,
            r@[0]@ == "test"@,
    {
        let mut args: Vec<String> = Vec::new();
        args.push("test".to_owned());
        args
    }

    /// Detects the ecosystem of a directory from the file names directly
    /// inside it: the fixed, ordered list of markers is checked and the
    /// first match wins. A directory with no recognized marker detects as
    /// nothing.
    pub fn detect(files: &Vec<String>) -> (r: Option<Ecosystem>)
        ensures
            r == detect_view(file_views(files@)),
    {
        let has_rust = has_marker_exec(files, Ecosystem::Rust);
        let has_mix = has_marker_exec(files, Ecosystem::Elixir);
        if has_rust {
            Some(Ecosystem::Rust)
        } else if has_mix {
            Some(Ecosystem::Elixir)
        } else {
            None
        }
    }
}

/// Whether `e`'s marker occurs among the file names `files`.
fn has_marker_exec(files: &Vec<String>, e: Ecosystem) -> (r: bool)
    ensures
        r == has_marker(file_views(files@), e),
{
    let m = e.marker();
    let r = contains_name(files, &m);
    proof {
        assert forall|i: int| 0 <= i < files@.len() implies #[trigger] file_views(files@)[i]
            == files@[i]@ by {}
        if r {
            let i = choose|i: int| 0 <= i < files@.len() && files@[i]@ == m@;
            assert(file_views(files@)[i] == marker_view(e));
        }
        if has_marker(file_views(files@), e) {
            let i = choose|i: int|
                0 <= i < file_views(files@).len() && file_views(files@)[i] == marker_view(e);
            assert(files@[i]@ == m@);
        }
    }
    r
}

/// Whether `target` occurs among `files`.
fn contains_name(files: &Vec<String>, target: &String) -> (r: bool)
    ensures
        r == exists|i: int| 0 <= i < files@.len() && files@[i]@ == target@,
{
    let mut k: usize = 0;
    while k < files.len()
        invariant
            0 <= k <= files@.len(),
            forall|i: int| 0 <= i < k ==> files@[i]@ != target@,
        decreases files@.len() - k,
    {
        if files[k] == *target {
            return true;
        }
        k += 1;
    }
    false
}

} // verus!
