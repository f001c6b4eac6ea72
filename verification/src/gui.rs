//! The catalog of window kinds that a graphical front end offers.
use vstd::prelude::*;
use vstd::string::StringExecFns;
use crate::context::{CommandHandler, Context, Plugin};
use crate::error::Error;
use crate::registry::Holds;

verus! {

/// One window kind of the catalog.
pub struct GuiNewWindowType {
    name: String,
}

impl View for GuiNewWindowType {
    type V = Seq<char>;

    /// The name of the kind.
    closed spec fn view(&self) -> Seq<char> {
        self.name@
    }
}

impl GuiNewWindowType {
    /// The name under which the kind is offered.
    pub fn name(&self) -> (r: &String)
        ensures
            r@ == self@,
    {
        &self.name
    }
}

/// The window kinds that can be opened from the window menu.
pub struct GuiNewWindowTypes {
    types: Vec<GuiNewWindowType>,
}

impl View for GuiNewWindowTypes {
    type V = Seq<Seq<char>>;

    /// The names of the kinds, in the order of their registration.
    closed spec fn view(&self) -> Seq<Seq<char>> {
        self.types@.map_values(|t: GuiNewWindowType| t@)
    }
}

impl GuiNewWindowTypes {
    /// A catalog without kinds.
    pub fn new() -> (r: Self)
        ensures
            r@.len() == 0,
    {
        GuiNewWindowTypes { types: Vec::new() }
    }

    /// Adds a kind named `name` after the kinds of the catalog.
    pub fn add(&mut self, name: &str)
        ensures
            final(self)@ == old(self)@.push(name@),
    {
        self.types.push(GuiNewWindowType { name: String::from_str(name) });
        assert(self@ =~= old(self)@.push(name@));
    }

    /// The kinds of the catalog.
    pub fn types(&self) -> (r: &Vec<GuiNewWindowType>)
        ensures
            r@.map_values(|t: GuiNewWindowType| t@) == self@,
    {
        &self.types
    }
}

impl Default for GuiNewWindowTypes {
    fn default() -> (r: Self)
        ensures
            r@.len() == 0,
    {
        GuiNewWindowTypes::new()
    }
}

/// The names of the window kinds among `resources`; none without a
/// catalog.
pub open spec fn window_names<V: Holds<GuiNewWindowTypes>>(resources: Map<u64, V>) -> Seq<Seq<char>> {
    if resources.contains_key(<V as Holds<GuiNewWindowTypes>>::key_of()) {
        resources[<V as Holds<GuiNewWindowTypes>>::key_of()].held()@
    } else {
        Seq::empty()
    }
}

/// What a graphical front end adds to a context.
pub trait GuiContextExt {
    /// The validity of the context.
    spec fn valid(&self) -> bool;

    /// The names of the window kinds of the window menu, in the order of
    /// their registration.
    spec fn window_kinds(&self) -> Seq<Seq<char>>;

    /// Adds a window kind named `name` to the window menu, after its
    /// kinds.
    fn add_new_window_type(&mut self, name: &str)
        requires
            old(self).valid(),
        ensures
            final(self).valid(),
            final(self).window_kinds() == old(self).window_kinds().push(name@),
    ;
}

impl<V: Holds<GuiNewWindowTypes>, H> GuiContextExt for Context<V, H> {
    open spec fn valid(&self) -> bool {
        self.wf()
    }

    open spec fn window_kinds(&self) -> Seq<Seq<char>> {
        window_names(self.resources())
    }

    /// The catalog of window kinds is created when this is its first
    /// kind. Nothing else of the context changes.
    fn add_new_window_type(&mut self, name: &str)
        ensures
            final(self).resources().contains_key(<V as Holds<GuiNewWindowTypes>>::key_of()),
            ({
                let key = <V as Holds<GuiNewWindowTypes>>::key_of();
                final(self).resources().remove(key) == old(self).resources().remove(key)
            }),
            final(self).commands() == old(self).commands(),
            final(self).tables() == old(self).tables(),
    {
        let ghost key = <V as Holds<GuiNewWindowTypes>>::key_of();
        if !self.has_resource::<GuiNewWindowTypes>() {
            let catalog = GuiNewWindowTypes::new();
            proof {
                <V as Holds<GuiNewWindowTypes>>::wrapped_is_held(catalog);
            }
            self.add_resource(catalog);
        }
        let ghost middle = self.resources();
        match self.get_resource_mut::<GuiNewWindowTypes>() {
            Some(catalog) => {
                catalog.add(name);
                proof {
                    <V as Holds<GuiNewWindowTypes>>::wrapped_is_held(*catalog);
                    let stored = <V as Holds<GuiNewWindowTypes>>::wrapped(*catalog);
                    assert(middle.insert(key, stored).remove(key) =~= old(self).resources().remove(
                        key,
                    ));
                }
            },
            None => {},
        }
    }
}

/// Registers the catalog of window kinds.
#[derive(Clone, Copy)]
pub struct GuiPlugin;

impl<V: Holds<GuiNewWindowTypes>, H: CommandHandler<V, H> + Copy> Plugin<V, H> for GuiPlugin {
    /// An empty catalog of window kinds is stored unless the resources
    /// hold a catalog. Nothing else changes, and there is no error.
    open spec fn registers(
        self,
        before: Context<V, H>,
        after: Context<V, H>,
        out: Result<(), Error>,
    ) -> bool {
        let key = <V as Holds<GuiNewWindowTypes>>::key_of();
        &&& out is Ok
        &&& after.commands() == before.commands()
        &&& after.tables() == before.tables()
        &&& after.resources().contains_key(key)
        &&& window_names(after.resources()) == window_names(before.resources())
        &&& after.resources().remove(key) == before.resources().remove(key)
        &&& before.resources().contains_key(key) ==> after.resources() == before.resources()
    }

    fn build(self, context: &mut Context<V, H>) -> (out: Result<(), Error>) {
        let ghost key = <V as Holds<GuiNewWindowTypes>>::key_of();
        if !context.has_resource::<GuiNewWindowTypes>() {
            let catalog = GuiNewWindowTypes::new();
            proof {
                <V as Holds<GuiNewWindowTypes>>::wrapped_is_held(catalog);
            }
            context.add_resource(catalog);
            proof {
                assert(context.resources().remove(key) =~= old(context).resources().remove(key));
                assert(window_names(context.resources()) =~= window_names(
                    old(context).resources(),
                ));
            }
        }
        Ok(())
    }
}

} // verus!
