//! What the code generated for an interface has to look like.
//!
//! For every method of an interface a dispatcher decodes the arguments as one
//! tuple, calls the method and encodes what it returned, and a proxy encodes
//! the arguments as one tuple and decodes the return value. The rules here say
//! which type each element of that tuple has, which arguments are borrowed
//! again at the call, which identifier each method starts with, and which
//! forms of ownership an interface can be exported from.
//!
//! The rules look only at the outer shape of a type. Whatever they do not look
//! into is carried along as a value of the caller's choice, `T`.

use crate::service::id::default_method_id;
use crate::service::id::METHOD_ID_OFFSET;
use crate::service::MethodId;
use vstd::prelude::*;

verus! {

/// The type of a parameter, as far as the rules look into it.
#[derive(Debug, PartialEq, Eq)]
pub enum ParamType<T> {
    /// The type `str`.
    Str,
    /// A slice type, `[_]`.
    Slice,
    /// A reference to `elem`, with or without a lifetime and `mut`.
    Reference { lifetime: bool, mutable: bool, elem: Box<ParamType<T>> },
    /// Any other type.
    Other(T),
}

/// The owned type that stands for a borrowed parameter in the argument tuple.
#[derive(Debug, PartialEq, Eq)]
pub enum Unrefed<T> {
    /// `String`, for `&str`.
    OwnedString,
    /// `Vec<_>`, for a reference to a slice.
    InferredVec,
    /// The referenced type itself.
    Elem(ParamType<T>),
}

/// Why a borrowed parameter is refused.
#[derive(Debug, PartialEq, Eq, Structural, Clone, Copy)]
pub enum RefError {
    /// The reference names a lifetime.
    LifetimeExists,
    /// The reference is mutable.
    Mutable,
}

impl RefError {
    /// The words of the refusal.
    pub fn message(&self) -> (text: String)
        ensures
            *self is LifetimeExists ==> text@ == "Lifetime exists"@,
            *self is Mutable ==> text@ == "Mutable"@,
    {
        match self {
            RefError::LifetimeExists => "Lifetime exists".to_owned(),
            RefError::Mutable => "Mutable".to_owned(),
        }
    }
}

/// What a parameter of type `the_type` is in the argument tuple: nothing else
/// than itself if it is no reference; `String` for `&str` and `Vec<_>` for a
/// reference to a slice; else the referenced type. A reference with a lifetime
/// is refused, and after that a mutable one.
pub open spec fn unrefed<T>(the_type: ParamType<T>) -> Result<Option<Unrefed<T>>, RefError> {
    match the_type {
        ParamType::Reference { lifetime, mutable, elem } => {
            if lifetime {
                Err(RefError::LifetimeExists)
            } else if mutable {
                Err(RefError::Mutable)
            } else if *elem is Str {
                Ok(Some(Unrefed::OwnedString))
            } else if *elem is Slice {
                Ok(Some(Unrefed::InferredVec))
            } else {
                Ok(Some(Unrefed::Elem(*elem)))
            }
        },
        _ => Ok(None),
    }
}

/// Tells whether a parameter is borrowed, and if so, which owned type stands
/// for it.
pub fn is_ref<T>(the_type: ParamType<T>) -> (result: Result<Option<Unrefed<T>>, RefError>)
    ensures
        result == unrefed(the_type),
{
    match the_type {
        ParamType::Reference { lifetime, mutable, elem } => {
            if lifetime {
                return Err(RefError::LifetimeExists);
            }
            if mutable {
                return Err(RefError::Mutable);
            }
            match *elem {
                ParamType::Str => Ok(Some(Unrefed::OwnedString)),
                ParamType::Slice => Ok(Some(Unrefed::InferredVec)),
                other => Ok(Some(Unrefed::Elem(other))),
            }
        },
        _ => Ok(None),
    }
}

/// What a method takes `self` as.
#[derive(Debug, PartialEq, Eq, Structural, Clone, Copy)]
pub enum Receiver {
    /// The method has no inputs, or its first input is not `self`.
    Missing,
    /// `self` or `&self`.
    Shared,
    /// `&mut self` or `mut self`.
    Mutable,
}

/// A parameter of a method, `self` apart.
#[derive(Debug)]
pub struct Param<T> {
    pub ty: ParamType<T>,
}

/// A method of an interface.
#[derive(Debug)]
pub struct Method<T> {
    pub name: String,
    pub receiver: Receiver,
    pub params: Vec<Param<T>>,
}

/// An item of an interface's declaration.
#[derive(Debug)]
pub enum TraitItem<T> {
    Method(Method<T>),
    /// Anything that is no method: a constant, a type.
    Other,
}

/// The declaration of an interface.
#[derive(Debug)]
pub struct Interface<T> {
    pub name: String,
    pub items: Vec<TraitItem<T>>,
}

/// The type of one element of the argument tuple.
#[derive(Debug, PartialEq, Eq)]
pub enum TupleElem<T> {
    /// The parameter's own type: the dispatcher passes the element on.
    AsDeclared,
    /// An owned type for a borrowed parameter: the dispatcher passes a
    /// reference to the element.
    Erased(Unrefed<T>),
}

impl<T> TupleElem<T> {
    /// Whether the dispatcher borrows the element again at the call.
    pub fn is_reborrowed(&self) -> (reborrowed: bool)
        ensures
            reborrowed == (*self is Erased),
    {
        match self {
            TupleElem::AsDeclared => false,
            TupleElem::Erased(_) => true,
        }
    }
}

/// What the generated code does for one method.
#[derive(Debug)]
pub struct MethodPlan<T> {
    pub name: String,
    /// The identifier that the method starts with.
    pub id: MethodId,
    /// Whether the method needs exclusive access to the object.
    pub mut_self: bool,
    /// The elements of the argument tuple, one for each parameter.
    pub args: Vec<TupleElem<T>>,
}

/// What the generated code does for an interface.
#[derive(Debug)]
pub struct InterfacePlan<T> {
    pub name: String,
    pub methods: Vec<MethodPlan<T>>,
}

/// Why no code can be generated for an interface.
#[derive(Debug, PartialEq, Eq, Structural, Clone, Copy)]
pub enum InterfaceError {
    /// An item of the interface is no method.
    NotAMethod,
    /// A method does not take `self`.
    NoReceiver,
    /// A parameter is a reference that cannot be erased.
    Reference(RefError),
}

impl InterfaceError {
    /// The words of the refusal.
    pub fn message(&self) -> (text: String)
        ensures
            *self is NotAMethod ==> text@ == "Service trait must have only methods"@,
            *self is NoReceiver ==> text@
                == "All your method must take &self or &mut self (Object safety)"@,
            *self matches InterfaceError::Reference(e) ==> (e is LifetimeExists ==> text@
                == "Lifetime exists"@) && (e is Mutable ==> text@ == "Mutable"@),
    {
        match self {
            InterfaceError::NotAMethod => "Service trait must have only methods".to_owned(),
            InterfaceError::NoReceiver => "All your method must take &self or &mut self (Object safety)".to_owned(),
            InterfaceError::Reference(e) => e.message(),
        }
    }
}

/// The tuple element for a parameter whose type can be erased.
pub open spec fn tuple_elem<T>(the_type: ParamType<T>) -> TupleElem<T>
    recommends
        unrefed(the_type) is Ok,
{
    match unrefed(the_type) {
        Ok(Some(owned)) => TupleElem::Erased(owned),
        _ => TupleElem::AsDeclared,
    }
}

/// The first of `params`, from `from` on, that is refused, with the reason.
pub open spec fn first_refused<T>(params: Seq<Param<T>>, from: int) -> Option<RefError>
    decreases params.len() - from,
{
    if from < 0 || from >= params.len() {
        None
    } else {
        match unrefed(params[from].ty) {
            Err(e) => Some(e),
            Ok(_) => first_refused(params, from + 1),
        }
    }
}

/// Why a method is refused, if it is: it takes no `self`, or else its first
/// parameter that cannot be erased.
pub open spec fn method_error<T>(method: Method<T>) -> Option<InterfaceError> {
    if method.receiver is Missing {
        Some(InterfaceError::NoReceiver)
    } else {
        match first_refused(method.params@, 0) {
            Some(e) => Some(InterfaceError::Reference(e)),
            None => None,
        }
    }
}

/// Whether `plan` is the plan of `method` as the item at `index` of its
/// interface.
pub open spec fn is_plan_of<T>(plan: MethodPlan<T>, method: Method<T>, index: int) -> bool {
    &&& plan.name@ == method.name@
    &&& plan.id == default_method_id(index)
    &&& plan.mut_self == (method.receiver is Mutable)
    &&& plan.args@.len() == method.params@.len()
    &&& forall|j: int|
        0 <= j < method.params@.len() ==> #[trigger] plan.args@[j] == tuple_elem(method.params@[j].ty)
}

/// Plans the code for the method at `index` of its interface.
pub fn plan_method<T>(method: Method<T>, index: usize) -> (result: Result<MethodPlan<T>, InterfaceError>)
    requires
        index + METHOD_ID_OFFSET <= u32::MAX,
    ensures
        match method_error(method) {
            Some(e) => result == Err::<MethodPlan<T>, InterfaceError>(e),
            None => result matches Ok(plan) && is_plan_of(plan, method, index as int),
        },
{
    let Method { name, receiver, params } = method;
    let mut_self = match receiver {
        Receiver::Missing => {
            return Err(InterfaceError::NoReceiver);
        },
        Receiver::Shared => false,
        Receiver::Mutable => true,
    };
    let ghost declared = params@;
    let mut params = params;
    // Parameters are taken from the back, so the tuple is built in reverse.
    let mut reversed: Vec<TupleElem<T>> = Vec::new();
    let mut refused: Option<RefError> = None;
    while params.len() > 0
        invariant
            params@ == declared.subrange(0, params@.len() as int),
            params@.len() <= declared.len(),
            reversed@.len() == declared.len() - params@.len(),
            refused == first_refused(declared, params@.len() as int),
            refused is None ==> forall|k: int|
                0 <= k < reversed@.len() ==> #[trigger] reversed@[k] == tuple_elem(
                    declared[declared.len() - 1 - k].ty,
                ),
        decreases params@.len(),
    {
        let param = params.pop().unwrap();
        assert(param == declared[params@.len() as int]);
        assert(params@ =~= declared.subrange(0, params@.len() as int));
        match is_ref(param.ty) {
            Err(e) => {
                refused = Some(e);
                reversed.push(TupleElem::AsDeclared);
            },
            Ok(Some(owned)) => {
                reversed.push(TupleElem::Erased(owned));
            },
            Ok(None) => {
                reversed.push(TupleElem::AsDeclared);
            },
        }
    }
    if let Some(e) = refused {
        return Err(InterfaceError::Reference(e));
    }
    let mut args: Vec<TupleElem<T>> = Vec::new();
    while reversed.len() > 0
        invariant
            reversed@.len() + args@.len() == declared.len(),
            forall|k: int|
                0 <= k < reversed@.len() ==> #[trigger] reversed@[k] == tuple_elem(
                    declared[declared.len() - 1 - k].ty,
                ),
            forall|j: int| 0 <= j < args@.len() ==> #[trigger] args@[j] == tuple_elem(declared[j].ty),
        decreases reversed@.len(),
    {
        let elem = reversed.pop().unwrap();
        args.push(elem);
    }
    Ok(MethodPlan { name, id: (index as u32) + METHOD_ID_OFFSET, mut_self, args })
}

/// Whether some of these methods needs exclusive access to the object.
pub open spec fn needs_exclusive_access<T>(methods: Seq<MethodPlan<T>>) -> bool {
    exists|i: int| 0 <= i < methods.len() && #[trigger] methods[i].mut_self
}

impl<T> InterfacePlan<T> {
    /// Whether some method needs exclusive access to the object.
    pub fn is_mutable(&self) -> (mutable: bool)
        ensures
            mutable == needs_exclusive_access(self.methods@),
    {
        let mut i: usize = 0;
        while i < self.methods.len()
            invariant
                i <= self.methods@.len(),
                forall|k: int| 0 <= k < i ==> !(#[trigger] self.methods@[k]).mut_self,
            decreases self.methods@.len() - i,
        {
            if self.methods[i].mut_self {
                return true;
            }
            i += 1;
        }
        false
    }

    /// Whether an object that its owner gave away can be exported: always. It
    /// is put behind a lock if some method needs exclusive access.
    pub fn exports_exclusive(&self) -> (yes: bool)
        ensures
            yes,
    {
        true
    }

    /// Whether an object behind a shared pointer without a lock can be
    /// exported: only if no method needs exclusive access.
    pub fn exports_shared(&self) -> (yes: bool)
        ensures
            yes == !needs_exclusive_access(self.methods@),
    {
        !self.is_mutable()
    }

    /// Whether an object behind a shared pointer with a lock can be
    /// exported: always.
    pub fn exports_shared_with_lock(&self) -> (yes: bool)
        ensures
            yes,
    {
        true
    }
}

/// Whether some item is no method.
pub open spec fn has_non_method<T>(items: Seq<TraitItem<T>>) -> bool {
    exists|i: int| 0 <= i < items.len() && #[trigger] items[i] is Other
}

/// The first method of `items`, from `from` on, that is refused, with the
/// reason.
pub open spec fn first_method_error<T>(items: Seq<TraitItem<T>>, from: int) -> Option<InterfaceError>
    decreases items.len() - from,
{
    if from < 0 || from >= items.len() {
        None
    } else {
        match items[from] {
            TraitItem::Method(method) if method_error(method) is Some => method_error(method),
            _ => first_method_error(items, from + 1),
        }
    }
}

/// Why an interface is refused, if it is: for an item that is no method,
/// wherever it stands; else for its first method that is refused.
pub open spec fn interface_error<T>(items: Seq<TraitItem<T>>) -> Option<InterfaceError> {
    if has_non_method(items) {
        Some(InterfaceError::NotAMethod)
    } else {
        first_method_error(items, 0)
    }
}

/// Whether `plan` is the plan of the item at `index`, which is a method.
pub open spec fn is_plan_of_item<T>(plan: MethodPlan<T>, item: TraitItem<T>, index: int) -> bool {
    item matches TraitItem::Method(method) && is_plan_of(plan, method, index)
}

/// Plans the code for an interface. An interface with an item that is no
/// method is refused, and so is one with a method that is refused. Otherwise
/// every method gets a plan, in the order of declaration, and starts with the
/// identifier that its place in the interface gives it.
pub fn plan_interface<T>(interface: Interface<T>) -> (result: Result<InterfacePlan<T>, InterfaceError>)
    requires
        interface.items@.len() + METHOD_ID_OFFSET <= u32::MAX,
    ensures
        match interface_error(interface.items@) {
            Some(e) => result == Err::<InterfacePlan<T>, InterfaceError>(e),
            None => {
                &&& result matches Ok(plan)
                &&& plan.name@ == interface.name@
                &&& plan.methods@.len() == interface.items@.len()
                &&& forall|i: int|
                    0 <= i < interface.items@.len() ==> is_plan_of_item(
                        #[trigger] plan.methods@[i],
                        interface.items@[i],
                        i,
                    )
            },
        },
{
    let Interface { name, items } = interface;
    let ghost declared = items@;
    let mut i: usize = 0;
    while i < items.len()
        invariant
            items@ == declared,
            interface.items@ == declared,
            i <= declared.len(),
            forall|k: int| 0 <= k < i ==> !(#[trigger] declared[k] is Other),
        decreases declared.len() - i,
    {
        match &items[i] {
            TraitItem::Other => {
                assert(declared[i as int] is Other);
                assert(has_non_method(declared));
                assert(interface.items@ == declared);
                return Err(InterfaceError::NotAMethod);
            },
            TraitItem::Method(_) => {},
        }
        i += 1;
    }
    assert(!has_non_method(declared));

    let mut items = items;
    let mut reversed: Vec<MethodPlan<T>> = Vec::new();
    let mut refused: Option<InterfaceError> = None;
    while items.len() > 0
        invariant
            declared.len() + METHOD_ID_OFFSET <= u32::MAX,
            items@ == declared.subrange(0, items@.len() as int),
            items@.len() <= declared.len(),
            !has_non_method(declared),
            refused == first_method_error(declared, items@.len() as int),
            refused is None ==> reversed@.len() == declared.len() - items@.len(),
            refused is None ==> forall|k: int|
                0 <= k < reversed@.len() ==> is_plan_of_item(
                    #[trigger] reversed@[k],
                    declared[declared.len() - 1 - k],
                    declared.len() - 1 - k,
                ),
        decreases items@.len(),
    {
        let ghost before = reversed@;
        let item = items.pop().unwrap();
        let index = items.len();
        assert(item == declared[index as int]);
        assert(items@ =~= declared.subrange(0, index as int));
        match item {
            TraitItem::Other => {
                // The first pass found no such item.
                assert(declared[index as int] is Other);
                vstd::pervasive::unreached()
            },
            TraitItem::Method(method) => {
                match plan_method(method, index) {
                    Err(e) => {
                        refused = Some(e);
                    },
                    Ok(plan) => {
                        if refused.is_none() {
                            reversed.push(plan);
                            assert forall|k: int| 0 <= k < reversed@.len() implies is_plan_of_item(
                                #[trigger] reversed@[k],
                                declared[declared.len() - 1 - k],
                                declared.len() - 1 - k,
                            ) by {
                                if k < before.len() {
                                    assert(reversed@[k] == before[k]);
                                } else {
                                    assert(reversed@[k] == plan);
                                    assert(declared.len() - 1 - k == index);
                                }
                            }
                        }
                    },
                }
            },
        }
    }
    if let Some(e) = refused {
        return Err(e);
    }
    let mut methods: Vec<MethodPlan<T>> = Vec::new();
    while reversed.len() > 0
        invariant
            reversed@.len() + methods@.len() == declared.len(),
            forall|k: int|
                0 <= k < reversed@.len() ==> is_plan_of_item(
                    #[trigger] reversed@[k],
                    declared[declared.len() - 1 - k],
                    declared.len() - 1 - k,
                ),
            forall|i: int|
                0 <= i < methods@.len() ==> is_plan_of_item(#[trigger] methods@[i], declared[i], i),
        decreases reversed@.len(),
    {
        let ghost done = methods@;
        let ghost left = reversed@;
        let plan = reversed.pop().unwrap();
        methods.push(plan);
        assert forall|i: int| 0 <= i < methods@.len() implies is_plan_of_item(
            #[trigger] methods@[i],
            declared[i],
            i,
        ) by {
            if i < done.len() {
                assert(methods@[i] == done[i]);
            } else {
                assert(methods@[i] == left[left.len() - 1]);
                assert(declared.len() - 1 - (left.len() - 1) == i);
            }
        }
        assert forall|k: int| 0 <= k < reversed@.len() implies is_plan_of_item(
            #[trigger] reversed@[k],
            declared[declared.len() - 1 - k],
            declared.len() - 1 - k,
        ) by {
            assert(reversed@[k] == left[k]);
        }
    }
    Ok(InterfacePlan { name, methods })
}

/// One argument of the attribute that marks an interface.
#[derive(Debug)]
pub enum MacroArg<P> {
    /// A bare word.
    Word(String),
    /// A name, `=`, and a value.
    Assign { name: String, value: P },
}

/// Why an argument of the attribute is refused.
#[derive(Debug, PartialEq, Eq, Structural, Clone, Copy)]
pub enum ArgError {
    /// The argument was given before.
    Duplicated,
    /// The argument is none that the attribute knows.
    Unsupported,
}

impl ArgError {
    /// The words of the refusal.
    pub fn message(&self) -> (text: String)
        ensures
            *self is Duplicated ==> text@ == "Duplicated arguments"@,
            *self is Unsupported ==> text@ == "Unsupported argument"@,
    {
        match self {
            ArgError::Duplicated => "Duplicated arguments".to_owned(),
            ArgError::Unsupported => "Unsupported argument".to_owned(),
        }
    }
}

/// The arguments of the attribute as far as they have been read. `P` is the
/// path of an encoding.
#[derive(Debug)]
pub struct MacroArgsRaw<P> {
    pub serde_format: Option<P>,
    pub no_proxy: Option<()>,
    pub no_skeleton: Option<()>,
}

/// The arguments of the attribute, with a default in place of each one that
/// was not given.
#[derive(Debug)]
pub struct MacroArgs<P> {
    pub serde_format: P,
    pub no_proxy: bool,
    pub no_skeleton: bool,
}

impl<P> MacroArgsRaw<P> {
    /// No argument read yet.
    pub fn new() -> (args: Self)
        ensures
            args.serde_format is None,
            args.no_proxy is None,
            args.no_skeleton is None,
    {
        MacroArgsRaw { serde_format: None, no_proxy: None, no_skeleton: None }
    }

    /// Reads one more argument. The words `no_proxy` and `no_skeleton` and the
    /// assignment to `serde_format` are known, each once; nothing is changed by
    /// an argument that is refused.
    pub fn update(&mut self, arg: MacroArg<P>) -> (result: Result<(), ArgError>)
        ensures
            match arg {
                MacroArg::Word(word) => {
                    if word@ == "no_proxy"@ {
                        &&& final(self).serde_format == old(self).serde_format
                        &&& final(self).no_skeleton == old(self).no_skeleton
                        &&& final(self).no_proxy is Some
                        &&& result == if old(self).no_proxy is Some {
                            Err::<(), ArgError>(ArgError::Duplicated)
                        } else {
                            Ok::<(), ArgError>(())
                        }
                    } else if word@ == "no_skeleton"@ {
                        &&& final(self).serde_format == old(self).serde_format
                        &&& final(self).no_proxy == old(self).no_proxy
                        &&& final(self).no_skeleton is Some
                        &&& result == if old(self).no_skeleton is Some {
                            Err::<(), ArgError>(ArgError::Duplicated)
                        } else {
                            Ok::<(), ArgError>(())
                        }
                    } else {
                        &&& *final(self) == *old(self)
                        &&& result == Err::<(), ArgError>(ArgError::Unsupported)
                    }
                },
                MacroArg::Assign { name, value } => {
                    if name@ == "serde_format"@ {
                        &&& final(self).no_proxy == old(self).no_proxy
                        &&& final(self).no_skeleton == old(self).no_skeleton
                        &&& final(self).serde_format == Some(value)
                        &&& result == if old(self).serde_format is Some {
                            Err::<(), ArgError>(ArgError::Duplicated)
                        } else {
                            Ok::<(), ArgError>(())
                        }
                    } else {
                        &&& *final(self) == *old(self)
                        &&& result == Err::<(), ArgError>(ArgError::Unsupported)
                    }
                },
            },
    {
        match arg {
            MacroArg::Word(word) => {
                if word == "no_proxy".to_owned() {
                    let given = self.no_proxy.is_some();
                    self.no_proxy = Some(());
                    if given {
                        Err(ArgError::Duplicated)
                    } else {
                        Ok(())
                    }
                } else if word == "no_skeleton".to_owned() {
                    let given = self.no_skeleton.is_some();
                    self.no_skeleton = Some(());
                    if given {
                        Err(ArgError::Duplicated)
                    } else {
                        Ok(())
                    }
                } else {
                    Err(ArgError::Unsupported)
                }
            },
            MacroArg::Assign { name, value } => {
                if name == "serde_format".to_owned() {
                    let given = self.serde_format.is_some();
                    self.serde_format = Some(value);
                    if given {
                        Err(ArgError::Duplicated)
                    } else {
                        Ok(())
                    }
                } else {
                    Err(ArgError::Unsupported)
                }
            },
        }
    }

    /// The arguments with `default_format` for an encoding that was not given,
    /// and with both kinds of code generated unless one was switched off.
    pub fn fill_default_values(self, default_format: P) -> (args: MacroArgs<P>)
        ensures
            args.serde_format == match self.serde_format {
                Some(format) => format,
                None => default_format,
            },
            args.no_proxy == (self.no_proxy is Some),
            args.no_skeleton == (self.no_skeleton is Some),
    {
        MacroArgs {
            serde_format: match self.serde_format {
                Some(format) => format,
                None => default_format,
            },
            no_proxy: self.no_proxy.is_some(),
            no_skeleton: self.no_skeleton.is_some(),
        }
    }
}

} // verus!
