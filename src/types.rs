//! A structural matcher over the table of generic type applications.
use vstd::prelude::*;

verus! {

/// Identifier of a concrete type: its position in the type table.
#[derive(Clone, Copy, Debug, PartialEq, Eq, Structural)]
pub struct ConcreteTypeId {
    pub id: u64,
}

/// Identifier of a generic type, such as `Array` or `felt252`.
#[derive(Debug)]
pub struct GenericTypeId {
    pub name: String,
}

/// One argument of a generic type application.
#[derive(Clone, Copy, Debug, PartialEq, Eq, Structural)]
pub enum GenericArg {
    UserType,
    Type(ConcreteTypeId),
    Value,
    UserFunc,
    Libfunc,
}

/// A generic type applied to its arguments.
#[derive(Debug)]
pub struct ConcreteTypeLongId {
    pub generic_id: GenericTypeId,
    pub generic_args: Vec<GenericArg>,
}

/// One entry of the type table.
#[derive(Debug)]
pub struct TypeDeclaration {
    pub id: ConcreteTypeId,
    pub long_id: ConcreteTypeLongId,
}

pub open spec fn array_name() -> Seq<char> { "Array"@ }
pub open spec fn snapshot_name() -> Seq<char> { "Snapshot"@ }
pub open spec fn felt252_name() -> Seq<char> { "felt252"@ }
pub open spec fn struct_name() -> Seq<char> { "Struct"@ }
pub open spec fn enum_name() -> Seq<char> { "Enum"@ }

/// The application that a type identifier stands for, when it is in the table.
pub open spec fn long_id_at(decls: Seq<TypeDeclaration>, ty: ConcreteTypeId) -> Option<ConcreteTypeLongId> {
    if ty.id < decls.len() {
        Some(decls[ty.id as int].long_id)
    } else {
        None
    }
}

/// The type is in the table and is an application of the generic type `name`.
pub open spec fn has_generic(decls: Seq<TypeDeclaration>, ty: ConcreteTypeId, name: Seq<char>) -> bool {
    match long_id_at(decls, ty) {
        Some(l) => l.generic_id.name@ == name,
        None => false,
    }
}

/// The arguments of a resolved type, when it is an application of `name`.
pub open spec fn args_of(decls: Seq<TypeDeclaration>, ty: ConcreteTypeId, name: Seq<char>) -> Option<Seq<GenericArg>> {
    match long_id_at(decls, ty) {
        Some(l) => if l.generic_id.name@ == name { Some(l.generic_args@) } else { None },
        None => None,
    }
}

/// `Array<felt252>`.
pub open spec fn spec_is_felt252_array(decls: Seq<TypeDeclaration>, ty: ConcreteTypeId) -> bool {
    match args_of(decls, ty, array_name()) {
        Some(a) => a.len() == 1 && match a[0] {
            GenericArg::Type(e) => has_generic(decls, e, felt252_name()),
            _ => false,
        },
        None => false,
    }
}

/// `@Array<felt252>`.
pub open spec fn spec_is_felt252_array_snapshot(decls: Seq<TypeDeclaration>, ty: ConcreteTypeId) -> bool {
    match args_of(decls, ty, snapshot_name()) {
        Some(a) => a.len() == 1 && match a[0] {
            GenericArg::Type(inner) => spec_is_felt252_array(decls, inner),
            _ => false,
        },
        None => false,
    }
}

/// The one-field struct wrapping `@Array<felt252>`, that is `Span<felt252>`.
pub open spec fn spec_is_felt252_span(decls: Seq<TypeDeclaration>, ty: ConcreteTypeId) -> bool {
    match spec_extract_struct1(decls, ty) {
        Some(inner) => spec_is_felt252_array_snapshot(decls, inner),
        None => false,
    }
}

/// `(ok, err)` of a two-variant enum.
pub open spec fn spec_extract_result_ty(decls: Seq<TypeDeclaration>, ty: ConcreteTypeId) -> Option<(ConcreteTypeId, ConcreteTypeId)> {
    match args_of(decls, ty, enum_name()) {
        Some(a) => if a.len() == 3 && a[0] is UserType && a[1] is Type && a[2] is Type {
            Some((a[1]->Type_0, a[2]->Type_0))
        } else {
            None
        },
        None => None,
    }
}

/// The field type of a one-field struct.
pub open spec fn spec_extract_struct1(decls: Seq<TypeDeclaration>, ty: ConcreteTypeId) -> Option<ConcreteTypeId> {
    match args_of(decls, ty, struct_name()) {
        Some(a) => if a.len() == 2 && a[0] is UserType && a[1] is Type {
            Some(a[1]->Type_0)
        } else {
            None
        },
        None => None,
    }
}

/// The field types of a two-field struct.
pub open spec fn spec_extract_struct2(decls: Seq<TypeDeclaration>, ty: ConcreteTypeId) -> Option<(ConcreteTypeId, ConcreteTypeId)> {
    match args_of(decls, ty, struct_name()) {
        Some(a) => if a.len() == 3 && a[0] is UserType && a[1] is Type && a[2] is Type {
            Some((a[1]->Type_0, a[2]->Type_0))
        } else {
            None
        },
        None => None,
    }
}

/// `Result<(Span<felt252>,), E>` where `E` is `Array<felt252>` or a two-field
/// struct whose second field is `Array<felt252>`.
pub open spec fn spec_is_valid_entry_point_return_type(decls: Seq<TypeDeclaration>, ty: ConcreteTypeId) -> bool {
    match spec_extract_result_ty(decls, ty) {
        Some((ok_ty, err_ty)) => match spec_extract_struct1(decls, ok_ty) {
            Some(result_ty) => spec_is_felt252_span(decls, result_ty) && (
                spec_is_felt252_array(decls, err_ty) || match spec_extract_struct2(decls, err_ty) {
                    Some((_panic_ty, data_ty)) => spec_is_felt252_array(decls, data_ty),
                    None => false,
                }),
            None => false,
        },
        None => false,
    }
}

/// Whether a generic type identifier is the given name.
pub fn generic_id_is(g: &GenericTypeId, name: &str) -> (r: bool)
    ensures
        r == (g.name@ == name@),
{
    let n = name.to_owned();
    g.name == n
}

/// Resolves type identifiers against a type table. An identifier outside the
/// table resolves to nothing, so no shape predicate holds of it.
pub struct TypeResolver<'a> {
    pub type_decl: &'a [TypeDeclaration],
}

impl<'a> TypeResolver<'a> {
    pub open spec fn decls(&self) -> Seq<TypeDeclaration> {
        self.type_decl@
    }

    pub fn get_long_id(&self, type_id: &ConcreteTypeId) -> (r: Option<&'a ConcreteTypeLongId>)
        ensures
            match r {
                Some(l) => long_id_at(self.decls(), *type_id) == Some(*l),
                None => long_id_at(self.decls(), *type_id) is None,
            },
    {
        if type_id.id < self.type_decl.len() as u64 {
            Some(&self.type_decl[type_id.id as usize].long_id)
        } else {
            None
        }
    }

    /// The arguments of the type when it is an application of `name`.
    fn args_if(&self, ty: &ConcreteTypeId, name: &str) -> (r: Option<&'a Vec<GenericArg>>)
        ensures
            match r {
                Some(a) => args_of(self.decls(), *ty, name@) == Some(a@),
                None => args_of(self.decls(), *ty, name@) is None,
            },
    {
        match self.get_long_id(ty) {
            Some(long_id) => {
                if generic_id_is(&long_id.generic_id, name) {
                    Some(&long_id.generic_args)
                } else {
                    None
                }
            },
            None => None,
        }
    }

    /// Whether the type resolves to an application of the generic type `name`.
    pub fn has_generic_id(&self, ty: &ConcreteTypeId, name: &str) -> (r: bool)
        ensures
            r == has_generic(self.decls(), *ty, name@),
    {
        match self.get_long_id(ty) {
            Some(long_id) => generic_id_is(&long_id.generic_id, name),
            None => false,
        }
    }

    pub fn is_felt252_array(&self, ty: &ConcreteTypeId) -> (r: bool)
        ensures
            r == spec_is_felt252_array(self.decls(), *ty),
    {
        let Some(args) = self.args_if(ty, "Array") else {
            return false;
        };
        if args.len() != 1 {
            return false;
        }
        match args[0] {
            GenericArg::Type(element_ty) => self.has_generic_id(&element_ty, "felt252"),
            _ => false,
        }
    }

    pub fn is_felt252_array_snapshot(&self, ty: &ConcreteTypeId) -> (r: bool)
        ensures
            r == spec_is_felt252_array_snapshot(self.decls(), *ty),
    {
        let Some(args) = self.args_if(ty, "Snapshot") else {
            return false;
        };
        if args.len() != 1 {
            return false;
        }
        match args[0] {
            GenericArg::Type(inner_ty) => self.is_felt252_array(&inner_ty),
            _ => false,
        }
    }

    pub fn is_felt252_span(&self, ty: &ConcreteTypeId) -> (r: bool)
        ensures
            r == spec_is_felt252_span(self.decls(), *ty),
    {
        match self.extract_struct1(ty) {
            Some(element_ty) => self.is_felt252_array_snapshot(&element_ty),
            None => false,
        }
    }

    pub fn is_valid_entry_point_return_type(&self, ty: &ConcreteTypeId) -> (r: bool)
        ensures
            r == spec_is_valid_entry_point_return_type(self.decls(), *ty),
    {
        // The return type must be an enum with two variants: (result, error).
        let Some((result_tuple_ty, err_ty)) = self.extract_result_ty(ty) else {
            return false;
        };
        // The result variant must be a tuple with one element: Span<felt252>.
        let Some(result_ty) = self.extract_struct1(&result_tuple_ty) else {
            return false;
        };
        if !self.is_felt252_span(&result_ty) {
            return false;
        }
        // An Array<felt252> error is the legacy panic encoding.
        if self.is_felt252_array(&err_ty) {
            return true;
        }
        // Otherwise the error must be a struct (panic, data) with Array<felt252> data.
        let Some((_panic_ty, err_data_ty)) = self.extract_struct2(&err_ty) else {
            return false;
        };
        self.is_felt252_array(&err_data_ty)
    }

    /// Extracts `TOk`, `TErr` from `Result<TOk, TErr>`.
    pub fn extract_result_ty(&self, ty: &ConcreteTypeId) -> (r: Option<(ConcreteTypeId, ConcreteTypeId)>)
        ensures
            r == spec_extract_result_ty(self.decls(), *ty),
    {
        let Some(args) = self.args_if(ty, "Enum") else {
            return None;
        };
        if args.len() != 3 {
            return None;
        }
        match (args[0], args[1], args[2]) {
            (GenericArg::UserType, GenericArg::Type(ok_ty), GenericArg::Type(err_ty)) => Some((ok_ty, err_ty)),
            _ => None,
        }
    }

    /// Extracts `T` from the tuple type `(T,)`.
    pub fn extract_struct1(&self, ty: &ConcreteTypeId) -> (r: Option<ConcreteTypeId>)
        ensures
            r == spec_extract_struct1(self.decls(), *ty),
    {
        let Some(args) = self.args_if(ty, "Struct") else {
            return None;
        };
        if args.len() != 2 {
            return None;
        }
        match (args[0], args[1]) {
            (GenericArg::UserType, GenericArg::Type(ty0)) => Some(ty0),
            _ => None,
        }
    }

    /// Extracts `T0`, `T1` from the tuple type `(T0, T1)`.
    pub fn extract_struct2(&self, ty: &ConcreteTypeId) -> (r: Option<(ConcreteTypeId, ConcreteTypeId)>)
        ensures
            r == spec_extract_struct2(self.decls(), *ty),
    {
        let Some(args) = self.args_if(ty, "Struct") else {
            return None;
        };
        if args.len() != 3 {
            return None;
        }
        match (args[0], args[1], args[2]) {
            (GenericArg::UserType, GenericArg::Type(ty0), GenericArg::Type(ty1)) => Some((ty0, ty1)),
            _ => None,
        }
    }
}

} // verus!
