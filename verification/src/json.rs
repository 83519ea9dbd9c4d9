//! The JSON formatter: the tree view with its collapsed nodes, the search
//! results, and what each action of the user asks of the backend.
use vstd::prelude::*;
use crate::parse::parse_usize;
use crate::parse::unsigned_in;
use crate::text::decimal;
use crate::text::decimal_chars;
use crate::text::extend;
use crate::text::extend_str;
use crate::text::from_chars;
use crate::text::same_text;
use crate::text::string_views;

verus! {

// ---------------------------------------------------------------------------
// The tree
// ---------------------------------------------------------------------------

/// The kind of a JSON value.
#[derive(Clone, Copy, Debug, PartialEq, Eq, Structural)]
pub enum JsonValueType {
    Object,
    Array,
    String,
    Number,
    Boolean,
    Null,
}

/// The style class of a value of this kind.
pub open spec fn value_class(t: JsonValueType) -> Seq<char> {
    match t {
        JsonValueType::String => "json-string"@,
        JsonValueType::Number => "json-number"@,
        JsonValueType::Boolean => "json-boolean"@,
        JsonValueType::Null => "json-null"@,
        JsonValueType::Object => "json-object"@,
        JsonValueType::Array => "json-array"@,
    }
}

impl JsonValueType {
    /// The style class of a value of this kind.
    pub fn class(&self) -> (s: &'static str)
        ensures
            s@ == value_class(*self),
    {
        match self {
            JsonValueType::String => "json-string",
            JsonValueType::Number => "json-number",
            JsonValueType::Boolean => "json-boolean",
            JsonValueType::Null => "json-null",
            JsonValueType::Object => "json-object",
            JsonValueType::Array => "json-array",
        }
    }
}

/// A node of the parsed document, as the backend describes it.
pub struct JsonTreeNode {
    pub key: String,
    pub value_type: JsonValueType,
    pub value: Option<String>,
    pub path: String,
    pub children: Vec<JsonTreeNode>,
    pub expanded: bool,
}

/// Two trees are the same: equal keys, kinds, values, paths and expanded
/// marks, and the same children, one for one.
pub open spec fn same_tree(a: JsonTreeNode, b: JsonTreeNode) -> bool
    decreases a,
{
    &&& a.key == b.key
    &&& a.value_type == b.value_type
    &&& a.value == b.value
    &&& a.path == b.path
    &&& a.expanded == b.expanded
    &&& same_trees(a.children@, b.children@)
}

/// Two lists of trees are the same, one for one.
pub open spec fn same_trees(xs: Seq<JsonTreeNode>, ys: Seq<JsonTreeNode>) -> bool
    decreases xs,
{
    &&& xs.len() == ys.len()
    &&& (xs.len() > 0 ==> {
        &&& same_trees(xs.subrange(0, xs.len() - 1), ys.subrange(0, ys.len() - 1))
        &&& same_tree(xs[xs.len() - 1], ys[ys.len() - 1])
    })
}

impl JsonTreeNode {
    /// A copy of the tree under this node.
    fn deep_copy(&self) -> (r: JsonTreeNode)
        ensures
            same_tree(r, *self),
        decreases *self,
    {
        let mut children: Vec<JsonTreeNode> = Vec::new();
        let mut i: usize = 0;
        while i < self.children.len()
            invariant
                i <= self.children.len(),
                same_trees(children@, self.children@.subrange(0, i as int)),
            decreases self.children.len() - i,
        {
            proof {
                assert(decreases_to!(*self => self.children));
                assert(decreases_to!(self.children => self.children@));
                assert(decreases_to!(self.children@ => self.children@[i as int]));
            }
            let c = self.children[i].deep_copy();
            let ghost before = children@;
            children.push(c);
            proof {
                let xs = children@;
                let ys = self.children@.subrange(0, i + 1);
                assert(xs.subrange(0, xs.len() - 1) =~= before);
                assert(ys.subrange(0, ys.len() - 1) =~= self.children@.subrange(0, i as int));
                assert(xs[xs.len() - 1] == c);
                assert(ys[ys.len() - 1] == self.children@[i as int]);
            }
            i += 1;
        }
        assert(self.children@.subrange(0, self.children.len() as int) =~= self.children@);
        let value = match &self.value {
            Some(v) => Some(v.clone()),
            None => None,
        };
        JsonTreeNode {
            key: self.key.clone(),
            value_type: self.value_type,
            value,
            path: self.path.clone(),
            children,
            expanded: self.expanded,
        }
    }
}

impl Clone for JsonTreeNode {
    fn clone(&self) -> (r: Self)
        ensures
            same_tree(r, *self),
    {
        self.deep_copy()
    }
}

/// The paths of the collapsed nodes, each held once. They are kept in a
/// `Vec` without repeats rather than a `HashSet`: vstd models what a
/// `HashSet` holds only for keys such as integers and `bool`, not `String`.
#[derive(Clone)]
pub struct CollapsedPaths {
    pub paths: Vec<String>,
}

impl View for CollapsedPaths {
    type V = Set<Seq<char>>;

    open spec fn view(&self) -> Set<Seq<char>> {
        string_views(self.paths@).to_set()
    }
}

impl CollapsedPaths {
    /// No path occurs twice.
    pub open spec fn wf(&self) -> bool {
        string_views(self.paths@).no_duplicates()
    }

    /// No node collapsed.
    pub fn new() -> (c: CollapsedPaths)
        ensures
            c.wf(),
            c@ == Set::<Seq<char>>::empty(),
    {
        let c = CollapsedPaths { paths: Vec::new() };
        assert(c@ =~= Set::<Seq<char>>::empty());
        c
    }

    /// Where the path stands in the list.
    fn index_of(&self, path: &str) -> (r: Option<usize>)
        ensures
            match r {
                Some(i) => i < self.paths.len() && self.paths@[i as int]@ == path@,
                None => !self@.contains(path@),
            },
    {
        let mut i: usize = 0;
        while i < self.paths.len()
            invariant
                i <= self.paths.len(),
                forall|j: int| 0 <= j < i ==> self.paths@[j]@ != path@,
            decreases self.paths.len() - i,
        {
            if same_text(self.paths[i].as_str(), path) {
                return Some(i);
            }
            i += 1;
        }
        proof {
            if self@.contains(path@) {
                let k = choose|k: int|
                    0 <= k < string_views(self.paths@).len() && string_views(self.paths@)[k]
                        == path@;
                assert(self.paths@[k]@ != path@);
            }
        }
        None
    }

    /// Whether the node with this path is collapsed.
    pub fn contains(&self, path: &str) -> (b: bool)
        ensures
            b == self@.contains(path@),
    {
        match self.index_of(path) {
            Some(i) => {
                assert(string_views(self.paths@)[i as int] == path@);
                true
            },
            None => false,
        }
    }

    /// Collapses an expanded node or expands a collapsed one.
    pub fn toggle(&mut self, path: &str)
        requires
            old(self).wf(),
        ensures
            *final(self) == (CollapsedPaths { paths: final(self).paths, ..*old(self) }),
            final(self).wf(),
            final(self)@ == toggled_set(old(self)@, path@),
    {
        let ghost sv = string_views(self.paths@);
        match self.index_of(path) {
            Some(i) => {
                self.paths.remove(i);
                proof {
                    let nv = string_views(self.paths@);
                    assert(nv =~= sv.remove(i as int));
                    assert(sv[i as int] == path@);
                    assert forall|x: Seq<char>| #[trigger] self@.contains(x) <==> old(self)@.remove(
                        path@,
                    ).contains(x) by {
                        if self@.contains(x) {
                            let k = choose|k: int| 0 <= k < nv.len() && nv[k] == x;
                            if k < i {
                                assert(sv[k] == x);
                            } else {
                                assert(sv[k + 1] == x);
                            }
                        }
                        if old(self)@.remove(path@).contains(x) {
                            let k = choose|k: int| 0 <= k < sv.len() && sv[k] == x;
                            assert(k != i);
                            if k < i {
                                assert(nv[k] == x);
                            } else {
                                assert(nv[k - 1] == x);
                            }
                        }
                    }
                    assert(self@ =~= old(self)@.remove(path@));
                }
            },
            None => {
                self.paths.push(path.to_string());
                proof {
                    let nv = string_views(self.paths@);
                    assert(nv =~= sv.push(path@));
                    assert forall|x: Seq<char>| #[trigger] self@.contains(x) <==> old(self)@.insert(
                        path@,
                    ).contains(x) by {
                        if self@.contains(x) {
                            let k = choose|k: int| 0 <= k < nv.len() && nv[k] == x;
                            if k < sv.len() {
                                assert(sv[k] == x);
                            }
                        }
                        if old(self)@.contains(x) {
                            let k = choose|k: int| 0 <= k < sv.len() && sv[k] == x;
                            assert(nv[k] == x);
                        }
                        if x == path@ {
                            assert(nv[sv.len() as int] == x);
                        }
                    }
                    assert(self@ =~= old(self)@.insert(path@));
                }
            },
        }
    }
}

/// The set with `p` removed when it holds it, added when it does not.
pub open spec fn toggled_set(s: Set<Seq<char>>, p: Seq<char>) -> Set<Seq<char>> {
    if s.contains(p) {
        s.remove(p)
    } else {
        s.insert(p)
    }
}

/// Collapsing and expanding a node again leaves the other nodes as they were.
pub proof fn law_toggle_twice(s: Set<Seq<char>>, p: Seq<char>)
    ensures
        toggled_set(toggled_set(s, p), p) == s,
        toggled_set(s, p).contains(p) != s.contains(p),
        forall|q: Seq<char>| q != p ==> (toggled_set(s, p).contains(q) == s.contains(q)),
{
    assert(toggled_set(toggled_set(s, p), p) =~= s);
}

/// One line of the tree view.
#[derive(Clone)]
pub struct TreeRow {
    pub key: String,
    pub value_class: &'static str,
    pub value: String,
    pub path: String,
    /// The left padding in pixels: twenty per level.
    pub indent: usize,
    pub has_children: bool,
    pub collapsed: bool,
}

/// A line of the tree view as values.
pub struct RowView {
    pub key: Seq<char>,
    pub value_class: Seq<char>,
    pub value: Seq<char>,
    pub path: Seq<char>,
    pub indent: nat,
    pub has_children: bool,
    pub collapsed: bool,
}

impl View for TreeRow {
    type V = RowView;

    open spec fn view(&self) -> RowView {
        RowView {
            key: self.key@,
            value_class: self.value_class@,
            value: self.value@,
            path: self.path@,
            indent: self.indent as nat,
            has_children: self.has_children,
            collapsed: self.collapsed,
        }
    }
}

/// The views of a list of lines.
pub open spec fn row_views(v: Seq<TreeRow>) -> Seq<RowView> {
    v.map_values(|r: TreeRow| r@)
}

/// The line of node `n` at depth `depth`: its key, the style of its value,
/// its value (empty for none), its path, its padding, and whether it has
/// children and is collapsed.
pub open spec fn row_of(n: JsonTreeNode, depth: nat, c: Set<Seq<char>>) -> RowView {
    RowView {
        key: n.key@,
        value_class: value_class(n.value_type),
        value: match n.value {
            Some(v) => v@,
            None => Seq::empty(),
        },
        path: n.path@,
        indent: depth * 20,
        has_children: n.children@.len() > 0,
        collapsed: c.contains(n.path@),
    }
}

/// The lines of the tree under `n`: its own line, then, when it has children
/// and is not collapsed, the lines of each child one level deeper.
pub open spec fn node_rows(n: JsonTreeNode, depth: nat, c: Set<Seq<char>>) -> Seq<RowView>
    decreases n,
{
    if n.children@.len() > 0 && !c.contains(n.path@) {
        seq![row_of(n, depth, c)] + list_rows(n.children@, depth + 1, c)
    } else {
        seq![row_of(n, depth, c)]
    }
}

/// The lines of a list of sibling nodes, in order.
pub open spec fn list_rows(ns: Seq<JsonTreeNode>, depth: nat, c: Set<Seq<char>>) -> Seq<RowView>
    decreases ns,
{
    if ns.len() == 0 {
        Seq::empty()
    } else {
        list_rows(ns.subrange(0, ns.len() - 1), depth, c) + node_rows(ns[ns.len() - 1], depth, c)
    }
}

/// The number of levels of the tree under `n`.
pub open spec fn height(n: JsonTreeNode) -> nat
    decreases n,
{
    1 + list_height(n.children@)
}

/// The most levels under any of the nodes.
pub open spec fn list_height(ns: Seq<JsonTreeNode>) -> nat
    decreases ns,
{
    if ns.len() == 0 {
        0
    } else {
        let a = list_height(ns.subrange(0, ns.len() - 1));
        let b = height(ns[ns.len() - 1]);
        if a >= b {
            a
        } else {
            b
        }
    }
}

/// Each node of a list is at most as high as the list.
proof fn lemma_list_height(ns: Seq<JsonTreeNode>, i: int)
    requires
        0 <= i < ns.len(),
    ensures
        height(ns[i]) <= list_height(ns),
    decreases ns.len(),
{
    if i < ns.len() - 1 {
        lemma_list_height(ns.subrange(0, ns.len() - 1), i);
    }
}

/// The line of one node.
fn make_row(n: &JsonTreeNode, depth: usize, c: &CollapsedPaths) -> (r: TreeRow)
    requires
        depth * 20 <= usize::MAX,
    ensures
        r@ == row_of(*n, depth as nat, c@),
{
    let value = match &n.value {
        Some(v) => v.clone(),
        None => String::new(),
    };
    TreeRow {
        key: n.key.clone(),
        value_class: n.value_type.class(),
        value,
        path: n.path.clone(),
        indent: depth * 20,
        has_children: n.children.len() > 0,
        collapsed: c.contains(n.path.as_str()),
    }
}

/// Appends the lines of the tree under `n`.
fn push_rows(n: &JsonTreeNode, depth: usize, c: &CollapsedPaths, out: &mut Vec<TreeRow>)
    requires
        (depth + height(*n)) * 20 <= usize::MAX,
    ensures
        row_views(final(out)@) == row_views(old(out)@) + node_rows(*n, depth as nat, c@),
    decreases *n,
{
    let ghost start = row_views(out@);
    let row = make_row(n, depth, c);
    let ghost rv = row@;
    out.push(row);
    assert(row_views(out@) =~= start + seq![rv]);
    if n.children.len() > 0 && !c.contains(n.path.as_str()) {
        let ghost kids = n.children@;
        let ghost head = row_views(out@);
        let mut i: usize = 0;
        while i < n.children.len()
            invariant
                i <= n.children.len(),
                kids == n.children@,
                (depth + height(*n)) * 20 <= usize::MAX,
                height(*n) == 1 + list_height(kids),
                row_views(out@) == head + list_rows(kids.take(i as int), depth as nat + 1, c@),
            decreases n.children.len() - i,
        {
            proof {
                lemma_list_height(kids, i as int);
                assert(kids.take(i + 1).subrange(0, i as int) =~= kids.take(i as int));
                assert(kids.take(i + 1)[i as int] == kids[i as int]);
                assert(decreases_to!(*n => n.children));
                assert(decreases_to!(n.children => n.children@));
                assert(decreases_to!(n.children@ => n.children@[i as int]));
            }
            push_rows(&n.children[i], depth + 1, c, out);
            assert(row_views(out@) =~= head + list_rows(kids.take(i + 1), depth as nat + 1, c@));
            i += 1;
        }
        assert(kids.take(n.children.len() as int) =~= kids);
        assert(row_views(out@) =~= start + node_rows(*n, depth as nat, c@));
    } else {
        assert(row_views(out@) =~= start + node_rows(*n, depth as nat, c@));
    }
}

/// The lines of the tree view, top to bottom.
pub fn visible_rows(root: &JsonTreeNode, collapsed: &CollapsedPaths) -> (r: Vec<TreeRow>)
    requires
        height(*root) * 20 <= usize::MAX,
    ensures
        row_views(r@) == node_rows(*root, 0, collapsed@),
{
    let mut out: Vec<TreeRow> = Vec::new();
    push_rows(root, 0, collapsed, &mut out);
    assert(row_views(out@) =~= node_rows(*root, 0, collapsed@));
    out
}

/// A collapsed node shows its own line and none of its children's.
pub proof fn law_collapsed_hides_children(n: JsonTreeNode, depth: nat, c: Set<Seq<char>>)
    requires
        c.contains(n.path@),
    ensures
        node_rows(n, depth, c) == seq![row_of(n, depth, c)],
{
}

// ---------------------------------------------------------------------------
// Search results
// ---------------------------------------------------------------------------

/// One place where the search found its text.
#[derive(Clone)]
pub struct JsonSearchMatch {
    pub path: String,
    pub key: String,
    pub value: String,
    pub value_type: JsonValueType,
}

/// What the backend answers to a search.
#[derive(Clone)]
pub struct JsonSearchResult {
    pub success: bool,
    pub matches: Vec<JsonSearchMatch>,
    pub total_count: usize,
    pub error: Option<String>,
}

/// The most matches listed.
pub const SHOWN_MATCHES: usize = 20;

/// How many matches are listed: the first twenty at most.
pub fn shown_match_count(result: &JsonSearchResult) -> (n: usize)
    ensures
        n == (if result.matches.len() < SHOWN_MATCHES { result.matches.len() } else { SHOWN_MATCHES }),
{
    if result.matches.len() < SHOWN_MATCHES {
        result.matches.len()
    } else {
        SHOWN_MATCHES
    }
}

/// The count line: `N matches found`.
pub fn matches_found_text(total: usize) -> (s: String)
    ensures
        s@ == decimal(total as nat) + " matches found"@,
{
    let mut v = decimal_chars(total as u64);
    extend_str(&mut v, " matches found");
    from_chars(&v)
}

/// The line under a cut list: `... and N more`, when there are more than twenty.
pub fn more_results_text(total: usize) -> (s: Option<String>)
    ensures
        total <= SHOWN_MATCHES ==> s is None,
        total > SHOWN_MATCHES ==> (s matches Some(t) && t@ == "... and "@ + decimal(
            (total - SHOWN_MATCHES) as nat,
        ) + " more"@),
{
    if total > SHOWN_MATCHES {
        let mut v: Vec<char> = Vec::new();
        extend_str(&mut v, "... and ");
        extend(&mut v, &decimal_chars((total - SHOWN_MATCHES) as u64));
        extend_str(&mut v, " more");
        Some(from_chars(&v))
    } else {
        None
    }
}

/// Where a syntax error is.
#[derive(Clone, Copy, Debug, PartialEq, Eq, Structural)]
pub struct ErrorPosition {
    pub line: usize,
    pub column: usize,
}

/// The position shown after "Invalid JSON": ` (Line L, Column C)`.
pub fn error_position_text(pos: ErrorPosition) -> (s: String)
    ensures
        s@ == " (Line "@ + decimal(pos.line as nat) + ", Column "@ + decimal(pos.column as nat)
            + ")"@,
{
    let mut v: Vec<char> = Vec::new();
    extend_str(&mut v, " (Line ");
    extend(&mut v, &decimal_chars(pos.line as u64));
    extend_str(&mut v, ", Column ");
    extend(&mut v, &decimal_chars(pos.column as u64));
    extend_str(&mut v, ")");
    from_chars(&v)
}

// ---------------------------------------------------------------------------
// The formatter's state and the user's actions
// ---------------------------------------------------------------------------

/// What the backend says of the input's validity.
#[derive(Clone)]
pub struct JsonValidateResult {
    pub valid: bool,
    pub error: Option<String>,
    pub error_position: Option<ErrorPosition>,
}

/// Whether the text pane or the tree pane is shown.
#[derive(Clone, Copy, Debug, PartialEq, Eq, Structural)]
pub enum JsonViewMode {
    Text,
    Tree,
}

/// What the formatter shows and remembers.
#[derive(Clone)]
pub struct FormatterState {
    pub input: String,
    pub output: String,
    pub indent_size: usize,
    pub validation: Option<JsonValidateResult>,
    pub tree: Option<JsonTreeNode>,
    pub search_query: String,
    pub search_results: Option<JsonSearchResult>,
    pub search_keys: bool,
    pub search_values: bool,
    pub view_mode: JsonViewMode,
    pub is_processing: bool,
    pub copied: bool,
    pub collapsed: CollapsedPaths,
}

/// A search the backend is asked to run.
#[derive(Clone)]
pub struct SearchRequest {
    pub input: String,
    pub query: String,
    pub search_keys: bool,
    pub search_values: bool,
}

impl FormatterState {
    /// The state on opening: empty, two-space indent, text view, keys and
    /// values searched.
    pub fn new() -> (s: FormatterState)
        ensures
            s.input@.len() == 0,
            s.output@.len() == 0,
            s.indent_size == 2,
            s.validation is None,
            s.tree is None,
            s.search_query@.len() == 0,
            s.search_results is None,
            s.search_keys,
            s.search_values,
            s.view_mode == JsonViewMode::Text,
            !s.is_processing,
            !s.copied,
            s.collapsed.wf(),
            s.collapsed@ == Set::<Seq<char>>::empty(),
    {
        FormatterState {
            input: String::new(),
            output: String::new(),
            indent_size: 2,
            validation: None,
            tree: None,
            search_query: String::new(),
            search_results: None,
            search_keys: true,
            search_values: true,
            view_mode: JsonViewMode::Text,
            is_processing: false,
            copied: false,
            collapsed: CollapsedPaths::new(),
        }
    }

    /// The input changed. An empty input clears the validation, the tree and
    /// the output; otherwise it is validated after a pause (`true`).
    pub fn on_input(&mut self, input: String) -> (validate: bool)
        ensures
            final(self).input == input,
            validate == (input@.len() > 0),
            input@.len() == 0 ==> final(self).validation is None && final(self).tree is None
                && final(self).output@.len() == 0,
            input@.len() > 0 ==> *final(self) == (FormatterState { input, ..*old(self) }),
            input@.len() == 0 ==> *final(self) == (FormatterState {
                input,
                validation: None,
                tree: None,
                output: final(self).output,
                ..*old(self)
            }),
    {
        let empty = input.as_str().is_empty();
        self.input = input;
        if empty {
            self.validation = None;
            self.tree = None;
            self.output = String::new();
            false
        } else {
            true
        }
    }

    /// The validation came back; a valid input is then formatted and parsed
    /// into a tree (`true`).
    pub fn on_validated(&mut self, result: JsonValidateResult) -> (follow: bool)
        ensures
            follow == result.valid,
            *final(self) == (FormatterState { validation: Some(result), ..*old(self) }),
    {
        let valid = result.valid;
        self.validation = Some(result);
        valid
    }

    /// The formatting that follows a valid input came back; a success replaces
    /// the output, and nothing else changes.
    pub fn on_formatted(&mut self, success: bool, text: String)
        ensures
            success ==> *final(self) == (FormatterState { output: text, ..*old(self) }),
            !success ==> *final(self) == *old(self),
    {
        if success {
            self.output = text;
        }
    }

    /// The formatted or minified text came back; a success replaces the output.
    /// The work in progress ends either way.
    pub fn on_output(&mut self, success: bool, text: String)
        ensures
            success ==> *final(self) == (FormatterState { output: text, is_processing: false, ..*old(self) }),
            !success ==> *final(self) == (FormatterState { is_processing: false, ..*old(self) }),
    {
        if success {
            self.output = text;
        }
        self.is_processing = false;
    }

    /// The tree came back; a success replaces the tree.
    pub fn on_tree(&mut self, success: bool, tree: Option<JsonTreeNode>)
        ensures
            success ==> *final(self) == (FormatterState { tree, ..*old(self) }),
            !success ==> *final(self) == *old(self),
    {
        if success {
            self.tree = tree;
        }
    }

    /// The format or minify button: with some input, the work starts and the
    /// input is handed over (`Some`); without, nothing happens.
    pub fn start_work(&mut self) -> (r: Option<String>)
        ensures
            old(self).input@.len() == 0 <==> r is None,
            r matches Some(t) ==> t@ == old(self).input@ && final(self).is_processing,
            r is None ==> *final(self) == *old(self),
            r is Some ==> *final(self) == (FormatterState { is_processing: true, ..*old(self) }),
    {
        if self.input.as_str().is_empty() {
            None
        } else {
            self.is_processing = true;
            Some(self.input.clone())
        }
    }

    /// The text the copy button copies, when there is output.
    pub fn copy_text(&self) -> (r: Option<String>)
        ensures
            self.output@.len() == 0 <==> r is None,
            r matches Some(t) ==> t@ == self.output@,
    {
        if self.output.as_str().is_empty() {
            None
        } else {
            Some(self.output.clone())
        }
    }

    /// The clear button: input, output, validation, tree, query and results go.
    pub fn clear(&mut self)
        ensures
            final(self).input@.len() == 0,
            final(self).output@.len() == 0,
            final(self).validation is None,
            final(self).tree is None,
            final(self).search_query@.len() == 0,
            final(self).search_results is None,
            *final(self) == (FormatterState {
                input: final(self).input,
                output: final(self).output,
                validation: None,
                tree: None,
                search_query: final(self).search_query,
                search_results: None,
                ..*old(self)
            }),
    {
        self.input = String::new();
        self.output = String::new();
        self.validation = None;
        self.tree = None;
        self.search_query = String::new();
        self.search_results = None;
    }

    /// The indent select changed; a number becomes the indent, anything else
    /// changes nothing.
    pub fn on_indent(&mut self, value: &str)
        ensures
            match unsigned_in(value@, usize::MAX as nat) {
                Some(n) => *final(self) == (FormatterState { indent_size: n as usize, ..*old(self) }),
                None => *final(self) == *old(self),
            },
    {
        if let Some(n) = parse_usize(value) {
            self.indent_size = n;
        }
    }

    /// The search to run, when both the input and the query hold text.
    pub fn search_request(&self) -> (r: Option<SearchRequest>)
        ensures
            (self.input@.len() == 0 || self.search_query@.len() == 0) <==> r is None,
            r matches Some(q) ==> q.input@ == self.input@ && q.query@ == self.search_query@
                && q.search_keys == self.search_keys && q.search_values == self.search_values,
    {
        if self.input.as_str().is_empty() || self.search_query.as_str().is_empty() {
            None
        } else {
            Some(
                SearchRequest {
                    input: self.input.clone(),
                    query: self.search_query.clone(),
                    search_keys: self.search_keys,
                    search_values: self.search_values,
                },
            )
        }
    }

    /// The copy of a text or a path was done: the button shows it.
    pub fn on_copied(&mut self)
        ensures
            *final(self) == (FormatterState { copied: true, ..*old(self) }),
    {
        self.copied = true;
    }

    /// The pause after a copy ended.
    pub fn on_copy_reset(&mut self)
        ensures
            *final(self) == (FormatterState { copied: false, ..*old(self) }),
    {
        self.copied = false;
    }
}

} // verus!
