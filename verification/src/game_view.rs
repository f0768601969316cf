use vstd::prelude::*;

verus! {

/// The tools of the game view tab and which of them is active.
/// The active tool, when there is one, is always one of the tools.
pub struct GameViewTab<T> {
    tools: Vec<T>,
    active_tool: Option<usize>,
}

/// The abstract state of a game view tab: its tools in order and the active one's index.
pub struct GameViewTabView<T> {
    pub tools: Seq<T>,
    pub active_tool: Option<usize>,
}

impl<T> View for GameViewTab<T> {
    type V = GameViewTabView<T>;

    closed spec fn view(&self) -> GameViewTabView<T> {
        GameViewTabView { tools: self.tools@, active_tool: self.active_tool }
    }
}

/// Whether the active index names one of the tools.
pub open spec fn active_tool_valid<T>(tab: GameViewTabView<T>) -> bool {
    tab.active_tool matches Some(i) ==> i < tab.tools.len()
}

impl<T> GameViewTab<T> {
    #[verifier::type_invariant]
    spec fn well_formed(self) -> bool {
        self.active_tool matches Some(i) ==> i < self.tools.len()
    }

    /// A tab without tools.
    pub fn new() -> (tab: Self)
        ensures
            tab@.tools == Seq::<T>::empty(),
            tab@.active_tool == None::<usize>,
    {
        GameViewTab { tools: Vec::new(), active_tool: None }
    }

    /// Adds a tool at the end of the list and makes it the active one.
    pub fn add_tool(&mut self, tool: T)
        requires
            old(self)@.tools.len() < usize::MAX,
        ensures
            final(self)@.tools == old(self)@.tools.push(tool),
            final(self)@.active_tool == Some((old(self)@.tools.len()) as usize),
            active_tool_valid(final(self)@),
    {
        let mut tools = Vec::new();
        self.active_tool = None;
        std::mem::swap(&mut tools, &mut self.tools);
        tools.push(tool);
        let n = tools.len();
        self.tools = tools;
        self.active_tool = Some(n - 1);
    }

    /// The number of tools.
    pub fn tool_count(&self) -> (n: usize)
        ensures
            n == self@.tools.len(),
    {
        self.tools.len()
    }

    /// The index of the active tool, if any.
    pub fn active_tool(&self) -> (active: Option<usize>)
        ensures
            active == self@.active_tool,
            active_tool_valid(self@),
    {
        proof {
            use_type_invariant(self);
        }
        self.active_tool
    }

    /// The tool at index `i`.
    pub fn tool(&self, i: usize) -> (tool: &T)
        requires
            i < self@.tools.len(),
        ensures
            *tool == self@.tools[i as int],
    {
        &self.tools[i]
    }

    /// The tool at index `i`, to be changed in place.
    pub fn tool_mut(&mut self, i: usize) -> (tool: &mut T)
        requires
            i < old(self)@.tools.len(),
        ensures
            *tool == old(self)@.tools[i as int],
            final(self)@.tools == old(self)@.tools.update(i as int, *final(tool)),
            final(self)@.active_tool == old(self)@.active_tool,
    {
        proof {
            use_type_invariant(&*self);
        }
        &mut self.tools[i]
    }

    /// The active tool, if any.
    pub fn active(&self) -> (tool: Option<&T>)
        ensures
            tool == (match self@.active_tool {
                Some(i) => Some(&self@.tools[i as int]),
                None => None,
            }),
    {
        proof {
            use_type_invariant(self);
        }
        match self.active_tool {
            Some(i) => Some(&self.tools[i]),
            None => None,
        }
    }

    /// Whether the tab draws its tool bar: only when it has a tool.
    pub fn shows_tools(&self) -> (shown: bool)
        ensures
            shown == (self@.tools.len() > 0),
    {
        self.tools.len() > 0
    }

    /// Whether the tab offers a choice of tool: only when it has more than one.
    pub fn shows_tool_selector(&self) -> (shown: bool)
        ensures
            shown == (self@.tools.len() > 1),
    {
        self.tools.len() > 1
    }

    /// Handles one frame of the tab's tool bar, where `picked` is the tool, if any, chosen in
    /// the selector. The selector is only offered when there is more than one tool, so a
    /// pick counts only then. The tools themselves are never changed here, and the active
    /// tool stays one of them.
    pub fn tool_bar_frame(&mut self, picked: Option<usize>)
        requires
            picked matches Some(i) ==> i < old(self)@.tools.len(),
        ensures
            final(self)@.tools == old(self)@.tools,
            active_tool_valid(final(self)@),
            old(self)@.tools.len() <= 1 ==> final(self)@.active_tool == old(self)@.active_tool,
            picked is None ==> final(self)@.active_tool == old(self)@.active_tool,
            (old(self)@.tools.len() > 1 && picked is Some) ==> final(self)@.active_tool == picked,
    {
        proof {
            use_type_invariant(&*self);
        }
        if self.tools.len() > 1 {
            if let Some(i) = picked {
                self.active_tool = Some(i);
            }
        }
    }

    /// Makes the tool at index `i` the active one, as choosing it in the selector does.
    pub fn select_tool(&mut self, i: usize)
        requires
            i < old(self)@.tools.len(),
        ensures
            final(self)@.tools == old(self)@.tools,
            final(self)@.active_tool == Some(i),
            active_tool_valid(final(self)@),
    {
        self.active_tool = Some(i);
    }
}

impl<T> Default for GameViewTab<T> {
    fn default() -> (tab: Self)
        ensures
            tab@.tools == Seq::<T>::empty(),
            tab@.active_tool == None::<usize>,
    {
        GameViewTab::new()
    }
}

} // verus!
