use vstd::prelude::*;
use crate::text::same_text;
use crate::user_feature::{FeatureUserView, UserViewModel};

verus! {

/// Failures of the plugin system.
#[derive(Clone, Debug, PartialEq, Eq)]
pub enum PluginError {
    InitializationFailed(String),
    ExecutionFailed(String),
    NotFound(String),
    AlreadyLoaded(String),
}

impl PluginError {
    /// The human-readable form: the kind, a colon, and the detail.
    pub fn message(&self) -> (r: String)
        ensures
            r@ == match self {
                PluginError::InitializationFailed(m) => "Initialization failed: "@ + m@,
                PluginError::ExecutionFailed(m) => "Execution failed: "@ + m@,
                PluginError::NotFound(m) => "Not found: "@ + m@,
                PluginError::AlreadyLoaded(m) => "Already loaded: "@ + m@,
            },
    {
        let (prefix, m) = match self {
            PluginError::InitializationFailed(m) => ("Initialization failed: ", m),
            PluginError::ExecutionFailed(m) => ("Execution failed: ", m),
            PluginError::NotFound(m) => ("Not found: ", m),
            PluginError::AlreadyLoaded(m) => ("Already loaded: ", m),
        };
        String::from_str(prefix).concat(m.as_str())
    }
}

/// A unit of functionality loaded into the application by name.
pub trait Plugin {
    /// The name the plugin answers with.
    closed spec fn spec_name(&self) -> Seq<char> {
        Seq::empty()
    }

    /// The name the plugin is registered under.
    fn name(&self) -> (r: &str)
        ensures
            r@ == self.spec_name(),
    ;

    fn version(&self) -> &str;

    fn initialize(&self) -> Result<(), PluginError>;

    fn shutdown(&self) -> Result<(), PluginError>;
}

/// A plugin that runs named commands.
pub trait CommandPlugin: Plugin {
    fn execute(&self, command: &str, args: &[String]) -> Result<String, PluginError>;
}

/// A plugin that answers named queries.
pub trait QueryPlugin: Plugin {
    fn query(&self, query: &str, params: &[String]) -> Result<String, PluginError>;
}

/// A plugin that reacts to events.
pub trait EventHandlerPlugin: Plugin {
    fn on_event(&self, event: &str, payload: &str) -> Result<(), PluginError>;
}

/// No name occurs twice.
pub open spec fn names_distinct(s: Seq<Seq<char>>) -> bool {
    forall|i: int, j: int| 0 <= i < s.len() && 0 <= j < s.len() && i != j ==> #[trigger] s[i] != #[trigger] s[j]
}

/// The plugins loaded, in registration order, each under the name it gave
/// when registered; at most one per name.
pub struct PluginRegistry<P: Plugin> {
    names: Vec<String>,
    plugins: Vec<P>,
}

impl<P: Plugin> PluginRegistry<P> {
    /// The registered names, in registration order.
    pub closed spec fn names(&self) -> Seq<Seq<char>> {
        self.names@.map_values(|s: String| s@)
    }

    pub closed spec fn well_formed(&self) -> bool {
        &&& names_distinct(self.names())
        &&& self.names@.len() == self.plugins@.len()
        &&& forall|i: int| 0 <= i < self.names@.len() ==> #[trigger] self.names@[i]@ == self.plugins@[i].spec_name()
    }

    pub fn new() -> (r: Self)
        ensures
            r.well_formed(),
            r.names() == Seq::<Seq<char>>::empty(),
    {
        let r = PluginRegistry { names: Vec::new(), plugins: Vec::new() };
        assert(r.names() =~= Seq::<Seq<char>>::empty());
        r
    }

    fn position(&self, name: &str) -> (r: Option<usize>)
        ensures
            match r {
                Some(i) => i < self.names().len() && self.names()[i as int] == name@,
                None => !self.names().contains(name@),
            },
    {
        let mut i: usize = 0;
        while i < self.names.len()
            invariant
                i <= self.names@.len(),
                forall|j: int| 0 <= j < i ==> self.names()[j] != name@,
            decreases self.names@.len() - i,
        {
            if same_text(self.names[i].as_str(), name) {
                return Some(i);
            }
            i = i + 1;
        }
        None
    }

    /// Initializes and adds the plugin under its name. Fails with
    /// `AlreadyLoaded`, carrying the name, when the name is registered, and
    /// with `InitializationFailed` when initialization fails; a failure adds
    /// nothing.
    pub fn register(&mut self, plugin: P) -> (r: Result<(), PluginError>)
        requires
            old(self).well_formed(),
        ensures
            final(self).well_formed(),
            old(self).names().contains(plugin.spec_name()) ==> (r matches Err(PluginError::AlreadyLoaded(n))
                && n@ == plugin.spec_name()),
            !old(self).names().contains(plugin.spec_name()) ==> (r is Ok || (r matches Err(e)
                && e is InitializationFailed)),
            r is Err ==> final(self).names() == old(self).names(),
            r is Ok ==> final(self).names() == old(self).names().push(plugin.spec_name()),
    {
        let name = plugin.name().to_owned();
        if self.position(name.as_str()).is_some() {
            return Err(PluginError::AlreadyLoaded(name));
        }
        match plugin.initialize() {
            Ok(()) => {},
            Err(e) => {
                return Err(PluginError::InitializationFailed(e.message()));
            },
        }
        let ghost before = self.names();
        let ghost old_names = self.names@;
        let ghost old_plugins = self.plugins@;
        let ghost n = name@;
        let ghost pn = plugin.spec_name();
        self.names.push(name);
        self.plugins.push(plugin);
        proof {
            assert forall|i: int| 0 <= i < self.names@.len() implies #[trigger] self.names@[i]@
                == self.plugins@[i].spec_name() by {
                if i < old_names.len() {
                    assert(self.names@[i] == old_names[i]);
                    assert(self.plugins@[i] == old_plugins[i]);
                }
            }
            let s = self.names();
            assert(s =~= before.push(n));
            assert forall|i: int, j: int| 0 <= i < s.len() && 0 <= j < s.len() && i != j implies
                #[trigger] s[i] != #[trigger] s[j] by {
                if i < before.len() && j < before.len() {
                } else if i < before.len() {
                    assert(s[i] == before[i]);
                } else {
                    assert(s[j] == before[j]);
                }
            }
        }
        Ok(())
    }

    /// Removes the plugin with the name and shuts it down; `NotFound` when
    /// there is none. A failing shutdown is reported as `ExecutionFailed`,
    /// the plugin being removed all the same.
    pub fn unregister(&mut self, name: &str) -> (r: Result<(), PluginError>)
        requires
            old(self).well_formed(),
        ensures
            final(self).well_formed(),
            !old(self).names().contains(name@) ==> (r matches Err(PluginError::NotFound(n))
                && n@ == name@ && final(self).names() == old(self).names()),
            old(self).names().contains(name@) ==> (r is Ok || (r matches Err(e) && e is ExecutionFailed))
                && final(self).names().len() == old(self).names().len() - 1
                && !final(self).names().contains(name@)
                && forall|x: Seq<char>| x != name@ ==> (#[trigger] final(self).names().contains(x)
                    <==> old(self).names().contains(x)),
    {
        match self.position(name) {
            None => Err(PluginError::NotFound(name.to_owned())),
            Some(i) => {
                let ghost before = self.names();
                let ghost old_names = self.names@;
                let ghost old_plugins = self.plugins@;
                let _ = self.names.remove(i);
                let p = self.plugins.remove(i);
                proof {
                    assert forall|a: int| 0 <= a < self.names@.len() implies #[trigger] self.names@[a]@
                        == self.plugins@[a].spec_name() by {
                        let a2 = if a < i as int { a } else { a + 1 };
                        assert(self.names@[a] == old_names[a2]);
                        assert(self.plugins@[a] == old_plugins[a2]);
                    }
                    let s = self.names();
                    assert(s =~= before.remove(i as int));
                    assert forall|a: int, b: int| 0 <= a < s.len() && 0 <= b < s.len() && a != b implies
                        #[trigger] s[a] != #[trigger] s[b] by {
                        let a2 = if a < i as int { a } else { a + 1 };
                        let b2 = if b < i as int { b } else { b + 1 };
                        assert(s[a] == before[a2] && s[b] == before[b2]);
                    }
                    if s.contains(name@) {
                        let k = choose|k: int| 0 <= k < s.len() && s[k] == name@;
                        let k2 = if k < i as int { k } else { k + 1 };
                        assert(s[k] == before[k2]);
                    }
                    assert forall|x: Seq<char>| x != name@ implies (#[trigger] s.contains(x)
                        <==> before.contains(x)) by {
                        if before.contains(x) {
                            let k = choose|k: int| 0 <= k < before.len() && before[k] == x;
                            assert(k != i as int);
                            let k2 = if k < i as int { k } else { k - 1 };
                            assert(s[k2] == x);
                        }
                        if s.contains(x) {
                            let k = choose|k: int| 0 <= k < s.len() && s[k] == x;
                            let k2 = if k < i as int { k } else { k + 1 };
                            assert(before[k2] == x);
                        }
                    }
                }
                match p.shutdown() {
                    Ok(()) => Ok(()),
                    Err(e) => Err(PluginError::ExecutionFailed(e.message())),
                }
            },
        }
    }

    /// The plugin registered under the name, if any.
    pub fn get(&self, name: &str) -> (r: Option<&P>)
        requires
            self.well_formed(),
        ensures
            match r {
                Some(p) => self.names().contains(name@) && p.spec_name() == name@,
                None => !self.names().contains(name@),
            },
    {
        match self.position(name) {
            Some(i) => Some(&self.plugins[i]),
            None => None,
        }
    }

    /// The registered names, in registration order.
    pub fn list(&self) -> (r: Vec<String>)
        ensures
            r@.map_values(|s: String| s@) == self.names(),
    {
        let mut out: Vec<String> = Vec::new();
        let mut i: usize = 0;
        while i < self.names.len()
            invariant
                i <= self.names@.len(),
                out@.map_values(|s: String| s@) == self.names().subrange(0, i as int),
            decreases self.names@.len() - i,
        {
            let n = self.names[i].clone();
            let ghost before = out@;
            out.push(n);
            assert(out@.map_values(|s: String| s@) =~= before.map_values(|s: String| s@).push(n@));
            assert(out@.map_values(|s: String| s@) =~= self.names().subrange(0, i + 1));
            i = i + 1;
        }
        assert(self.names().subrange(0, i as int) =~= self.names());
        out
    }

    /// The number of registered plugins.
    pub fn len(&self) -> (r: usize)
        ensures
            r == self.names().len(),
    {
        self.names.len()
    }
}

/// An empty registry.
pub fn create_plugin_registry<P: Plugin>() -> (r: PluginRegistry<P>)
    ensures
        r.well_formed(),
        r.names() == Seq::<Seq<char>>::empty(),
{
    PluginRegistry::new()
}

/// The plugin of the user feature, which owns the feature's view model.
pub struct UserPlugin {
    viewmodel: UserViewModel,
}

impl UserPlugin {
    pub fn new() -> (r: UserPlugin)
        ensures
            r.viewmodel_spec().users() == Seq::<FeatureUserView>::empty(),
    {
        UserPlugin { viewmodel: UserViewModel::new() }
    }

    pub closed spec fn viewmodel_spec(&self) -> UserViewModel {
        self.viewmodel
    }

    /// The feature's view model.
    pub fn viewmodel(&self) -> (r: &UserViewModel)
        ensures
            *r == self.viewmodel_spec(),
    {
        &self.viewmodel
    }

    /// The feature's view model, for commands.
    pub fn viewmodel_mut(&mut self) -> (r: &mut UserViewModel)
        ensures
            *r == old(self).viewmodel_spec(),
            *final(r) == final(self).viewmodel_spec(),
    {
        &mut self.viewmodel
    }
}

impl Plugin for UserPlugin {
    open spec fn spec_name(&self) -> Seq<char> {
        "user"@
    }

    fn name(&self) -> (r: &str)
        ensures
            r@ == "user"@,
    {
        "user"
    }

    fn version(&self) -> (r: &str)
        ensures
            r@ == "1.0.0"@,
    {
        "1.0.0"
    }

    fn initialize(&self) -> (r: Result<(), PluginError>)
        ensures
            r is Ok,
    {
        Ok(())
    }

    fn shutdown(&self) -> (r: Result<(), PluginError>)
        ensures
            r is Ok,
    {
        Ok(())
    }
}

} // verus!
