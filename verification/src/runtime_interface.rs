//! The layout of the module that the `runtime_interface` attribute
//! generates for a trait: its name, visibility and attributes, and the
//! three generated parts it holds.

use vstd::prelude::*;

verus! {

/// The snake-case form of an identifier, as `Inflector` writes it.
pub uninterp spec fn snake_case_of(name: Seq<char>) -> Seq<char>;

/// `inflector::cases::snakecase::to_snake_case`: trusted to return a string
/// that depends on its argument alone, named `snake_case_of`.
#[verifier::external_body]
fn to_snake_case(name: &str) -> (r: String)
    ensures
        r@ == snake_case_of(name@),
{
    inflector::cases::snakecase::to_snake_case(name)
}

/// An item of the module generated for a runtime interface trait.
pub enum ModuleItem<T> {
    /// `use super::*;`, which brings the trait's surroundings into scope.
    UseSuperGlob,
    /// Tokens produced by the generators or carried over from the trait.
    Generated(T),
}

/// The module generated for a runtime interface trait. `T` stands for
/// the token streams that the generators produce.
pub struct RuntimeInterfaceModule<T> {
    /// The trait's attributes, carried over to the module.
    pub attrs: Vec<T>,
    /// The trait's visibility, carried over to the module.
    pub vis: T,
    /// The module's name: the trait's name in snake case.
    pub mod_name: String,
    /// The module's items, in order: `use super::*;`, the import of the
    /// runtime interface crate, the bare functions, the trait declaration
    /// and its implementation, and the host functions.
    pub items: Vec<ModuleItem<T>>,
}

/// Assembles the module of a runtime interface from the trait's name,
/// visibility and attributes and the results of the three generators.
/// It fails with the first generator error, in the order bare functions,
/// trait declaration, host functions; else it is named by the trait's
/// name in snake case, carries the trait's visibility and attributes, and
/// holds `use super::*;` followed by the include and the three generated
/// parts, unchanged and in that order.
pub fn runtime_interface_module<T, E>(
    trait_name: &str,
    vis: T,
    attrs: Vec<T>,
    bare_functions: Result<T, E>,
    crate_include: T,
    trait_decl_impl: Result<T, E>,
    host_functions: Result<T, E>,
) -> (r: Result<RuntimeInterfaceModule<T>, E>)
    ensures
        bare_functions is Err ==> r == Err::<RuntimeInterfaceModule<T>, E>(bare_functions->Err_0),
        bare_functions is Ok && trait_decl_impl is Err ==> r == Err::<RuntimeInterfaceModule<T>, E>(
            trait_decl_impl->Err_0,
        ),
        bare_functions is Ok && trait_decl_impl is Ok && host_functions is Err ==> r == Err::<
            RuntimeInterfaceModule<T>,
            E,
        >(host_functions->Err_0),
        r is Ok <==> (bare_functions is Ok && trait_decl_impl is Ok && host_functions is Ok),
        r matches Ok(m) ==> {
            &&& m.attrs@ == attrs@
            &&& m.vis == vis
            &&& m.mod_name@ == snake_case_of(trait_name@)
            &&& m.items@ == seq![
                ModuleItem::UseSuperGlob,
                ModuleItem::Generated(crate_include),
                ModuleItem::Generated(bare_functions->Ok_0),
                ModuleItem::Generated(trait_decl_impl->Ok_0),
                ModuleItem::Generated(host_functions->Ok_0),
            ]
        },
{
    let bare_functions = match bare_functions {
        Ok(b) => b,
        Err(e) => return Err(e),
    };
    let mod_name = to_snake_case(trait_name);
    let trait_decl_impl = match trait_decl_impl {
        Ok(t) => t,
        Err(e) => return Err(e),
    };
    let host_functions = match host_functions {
        Ok(h) => h,
        Err(e) => return Err(e),
    };
    let mut items: Vec<ModuleItem<T>> = Vec::new();
    items.push(ModuleItem::UseSuperGlob);
    items.push(ModuleItem::Generated(crate_include));
    items.push(ModuleItem::Generated(bare_functions));
    items.push(ModuleItem::Generated(trait_decl_impl));
    items.push(ModuleItem::Generated(host_functions));
    Ok(RuntimeInterfaceModule { attrs, vis, mod_name, items })
}

} // verus!
