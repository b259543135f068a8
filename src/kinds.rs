//! The kinds libclang attaches to cursors and types, and their calling
//! conventions, with the codes that name them.

use vstd::prelude::*;
use crate::util::TryFrom;

verus! {

/// The kind of a type (`CXTypeKind`).
#[allow(non_camel_case_types)]
#[derive(PartialEq, Eq, Structural, Clone, Copy, Debug, Hash)]
pub enum TypeKind {
    Invalid,
    Unexposed,
    Void,
    Bool,
    Char_U,
    UChar,
    Char16,
    Char32,
    UShort,
    UInt,
    ULong,
    ULongLong,
    UInt128,
    Char_S,
    SChar,
    WChar,
    Short,
    Int,
    Long,
    LongLong,
    Int128,
    Float,
    Double,
    LongDouble,
    NullPtr,
    Overload,
    Dependent,
    ObjCId,
    ObjCClass,
    ObjCSel,
    Complex,
    Pointer,
    BlockPointer,
    LValueReference,
    RValueReference,
    Record,
    Enum,
    Typedef,
    ObjCInterface,
    ObjCObjectPointer,
    FunctionNoProto,
    FunctionProto,
    ConstantArray,
    Vector,
    IncompleteArray,
    VariableArray,
    DependentSizedArray,
    MemberPointer,
}

impl TypeKind {
    /// The code libclang uses for the kind.
    pub open spec fn code(self) -> u32 {
        match self {
            TypeKind::Invalid => 0,
            TypeKind::Unexposed => 1,
            TypeKind::Void => 2,
            TypeKind::Bool => 3,
            TypeKind::Char_U => 4,
            TypeKind::UChar => 5,
            TypeKind::Char16 => 6,
            TypeKind::Char32 => 7,
            TypeKind::UShort => 8,
            TypeKind::UInt => 9,
            TypeKind::ULong => 10,
            TypeKind::ULongLong => 11,
            TypeKind::UInt128 => 12,
            TypeKind::Char_S => 13,
            TypeKind::SChar => 14,
            TypeKind::WChar => 15,
            TypeKind::Short => 16,
            TypeKind::Int => 17,
            TypeKind::Long => 18,
            TypeKind::LongLong => 19,
            TypeKind::Int128 => 20,
            TypeKind::Float => 21,
            TypeKind::Double => 22,
            TypeKind::LongDouble => 23,
            TypeKind::NullPtr => 24,
            TypeKind::Overload => 25,
            TypeKind::Dependent => 26,
            TypeKind::ObjCId => 27,
            TypeKind::ObjCClass => 28,
            TypeKind::ObjCSel => 29,
            TypeKind::Complex => 100,
            TypeKind::Pointer => 101,
            TypeKind::BlockPointer => 102,
            TypeKind::LValueReference => 103,
            TypeKind::RValueReference => 104,
            TypeKind::Record => 105,
            TypeKind::Enum => 106,
            TypeKind::Typedef => 107,
            TypeKind::ObjCInterface => 108,
            TypeKind::ObjCObjectPointer => 109,
            TypeKind::FunctionNoProto => 110,
            TypeKind::FunctionProto => 111,
            TypeKind::ConstantArray => 112,
            TypeKind::Vector => 113,
            TypeKind::IncompleteArray => 114,
            TypeKind::VariableArray => 115,
            TypeKind::DependentSizedArray => 116,
            TypeKind::MemberPointer => 117,
        }
    }

    /// The code libclang uses for the kind.
    pub fn raw(self) -> (r: u32)
        ensures
            r == self.code(),
    {
        match self {
            TypeKind::Invalid => 0,
            TypeKind::Unexposed => 1,
            TypeKind::Void => 2,
            TypeKind::Bool => 3,
            TypeKind::Char_U => 4,
            TypeKind::UChar => 5,
            TypeKind::Char16 => 6,
            TypeKind::Char32 => 7,
            TypeKind::UShort => 8,
            TypeKind::UInt => 9,
            TypeKind::ULong => 10,
            TypeKind::ULongLong => 11,
            TypeKind::UInt128 => 12,
            TypeKind::Char_S => 13,
            TypeKind::SChar => 14,
            TypeKind::WChar => 15,
            TypeKind::Short => 16,
            TypeKind::Int => 17,
            TypeKind::Long => 18,
            TypeKind::LongLong => 19,
            TypeKind::Int128 => 20,
            TypeKind::Float => 21,
            TypeKind::Double => 22,
            TypeKind::LongDouble => 23,
            TypeKind::NullPtr => 24,
            TypeKind::Overload => 25,
            TypeKind::Dependent => 26,
            TypeKind::ObjCId => 27,
            TypeKind::ObjCClass => 28,
            TypeKind::ObjCSel => 29,
            TypeKind::Complex => 100,
            TypeKind::Pointer => 101,
            TypeKind::BlockPointer => 102,
            TypeKind::LValueReference => 103,
            TypeKind::RValueReference => 104,
            TypeKind::Record => 105,
            TypeKind::Enum => 106,
            TypeKind::Typedef => 107,
            TypeKind::ObjCInterface => 108,
            TypeKind::ObjCObjectPointer => 109,
            TypeKind::FunctionNoProto => 110,
            TypeKind::FunctionProto => 111,
            TypeKind::ConstantArray => 112,
            TypeKind::Vector => 113,
            TypeKind::IncompleteArray => 114,
            TypeKind::VariableArray => 115,
            TypeKind::DependentSizedArray => 116,
            TypeKind::MemberPointer => 117,
        }
    }
}

/// A code names at most one kind; unknown codes decode to `None`.
impl TryFrom<u32> for TypeKind {
    open spec fn decoded(v: u32) -> Option<TypeKind> {
        match v {
            0 => Some(TypeKind::Invalid),
            1 => Some(TypeKind::Unexposed),
            2 => Some(TypeKind::Void),
            3 => Some(TypeKind::Bool),
            4 => Some(TypeKind::Char_U),
            5 => Some(TypeKind::UChar),
            6 => Some(TypeKind::Char16),
            7 => Some(TypeKind::Char32),
            8 => Some(TypeKind::UShort),
            9 => Some(TypeKind::UInt),
            10 => Some(TypeKind::ULong),
            11 => Some(TypeKind::ULongLong),
            12 => Some(TypeKind::UInt128),
            13 => Some(TypeKind::Char_S),
            14 => Some(TypeKind::SChar),
            15 => Some(TypeKind::WChar),
            16 => Some(TypeKind::Short),
            17 => Some(TypeKind::Int),
            18 => Some(TypeKind::Long),
            19 => Some(TypeKind::LongLong),
            20 => Some(TypeKind::Int128),
            21 => Some(TypeKind::Float),
            22 => Some(TypeKind::Double),
            23 => Some(TypeKind::LongDouble),
            24 => Some(TypeKind::NullPtr),
            25 => Some(TypeKind::Overload),
            26 => Some(TypeKind::Dependent),
            27 => Some(TypeKind::ObjCId),
            28 => Some(TypeKind::ObjCClass),
            29 => Some(TypeKind::ObjCSel),
            100 => Some(TypeKind::Complex),
            101 => Some(TypeKind::Pointer),
            102 => Some(TypeKind::BlockPointer),
            103 => Some(TypeKind::LValueReference),
            104 => Some(TypeKind::RValueReference),
            105 => Some(TypeKind::Record),
            106 => Some(TypeKind::Enum),
            107 => Some(TypeKind::Typedef),
            108 => Some(TypeKind::ObjCInterface),
            109 => Some(TypeKind::ObjCObjectPointer),
            110 => Some(TypeKind::FunctionNoProto),
            111 => Some(TypeKind::FunctionProto),
            112 => Some(TypeKind::ConstantArray),
            113 => Some(TypeKind::Vector),
            114 => Some(TypeKind::IncompleteArray),
            115 => Some(TypeKind::VariableArray),
            116 => Some(TypeKind::DependentSizedArray),
            117 => Some(TypeKind::MemberPointer),
            _ => None,
        }
    }

    fn try_from(v: u32) -> (r: Option<TypeKind>) {
        match v {
            0 => Some(TypeKind::Invalid),
            1 => Some(TypeKind::Unexposed),
            2 => Some(TypeKind::Void),
            3 => Some(TypeKind::Bool),
            4 => Some(TypeKind::Char_U),
            5 => Some(TypeKind::UChar),
            6 => Some(TypeKind::Char16),
            7 => Some(TypeKind::Char32),
            8 => Some(TypeKind::UShort),
            9 => Some(TypeKind::UInt),
            10 => Some(TypeKind::ULong),
            11 => Some(TypeKind::ULongLong),
            12 => Some(TypeKind::UInt128),
            13 => Some(TypeKind::Char_S),
            14 => Some(TypeKind::SChar),
            15 => Some(TypeKind::WChar),
            16 => Some(TypeKind::Short),
            17 => Some(TypeKind::Int),
            18 => Some(TypeKind::Long),
            19 => Some(TypeKind::LongLong),
            20 => Some(TypeKind::Int128),
            21 => Some(TypeKind::Float),
            22 => Some(TypeKind::Double),
            23 => Some(TypeKind::LongDouble),
            24 => Some(TypeKind::NullPtr),
            25 => Some(TypeKind::Overload),
            26 => Some(TypeKind::Dependent),
            27 => Some(TypeKind::ObjCId),
            28 => Some(TypeKind::ObjCClass),
            29 => Some(TypeKind::ObjCSel),
            100 => Some(TypeKind::Complex),
            101 => Some(TypeKind::Pointer),
            102 => Some(TypeKind::BlockPointer),
            103 => Some(TypeKind::LValueReference),
            104 => Some(TypeKind::RValueReference),
            105 => Some(TypeKind::Record),
            106 => Some(TypeKind::Enum),
            107 => Some(TypeKind::Typedef),
            108 => Some(TypeKind::ObjCInterface),
            109 => Some(TypeKind::ObjCObjectPointer),
            110 => Some(TypeKind::FunctionNoProto),
            111 => Some(TypeKind::FunctionProto),
            112 => Some(TypeKind::ConstantArray),
            113 => Some(TypeKind::Vector),
            114 => Some(TypeKind::IncompleteArray),
            115 => Some(TypeKind::VariableArray),
            116 => Some(TypeKind::DependentSizedArray),
            117 => Some(TypeKind::MemberPointer),
            _ => None,
        }
    }
}

/// The calling convention of a function type (`CXCallingConv`).
#[allow(non_camel_case_types)]
#[derive(PartialEq, Eq, Structural, Clone, Copy, Debug, Hash)]
pub enum CallingConv {
    Default,
    C,
    X86StdCall,
    X86FastCall,
    X86ThisCall,
    X86Pascal,
    AAPCS,
    AAPCS_VFP,
    PnaclCall,
    IntelOclBicc,
    X86_64Win64,
    X86_64SysV,
    Invalid,
    Unexposed,
}

impl CallingConv {
    /// The code libclang uses for the kind.
    pub open spec fn code(self) -> u32 {
        match self {
            CallingConv::Default => 0,
            CallingConv::C => 1,
            CallingConv::X86StdCall => 2,
            CallingConv::X86FastCall => 3,
            CallingConv::X86ThisCall => 4,
            CallingConv::X86Pascal => 5,
            CallingConv::AAPCS => 6,
            CallingConv::AAPCS_VFP => 7,
            CallingConv::PnaclCall => 8,
            CallingConv::IntelOclBicc => 9,
            CallingConv::X86_64Win64 => 10,
            CallingConv::X86_64SysV => 11,
            CallingConv::Invalid => 100,
            CallingConv::Unexposed => 200,
        }
    }

    /// The code libclang uses for the kind.
    pub fn raw(self) -> (r: u32)
        ensures
            r == self.code(),
    {
        match self {
            CallingConv::Default => 0,
            CallingConv::C => 1,
            CallingConv::X86StdCall => 2,
            CallingConv::X86FastCall => 3,
            CallingConv::X86ThisCall => 4,
            CallingConv::X86Pascal => 5,
            CallingConv::AAPCS => 6,
            CallingConv::AAPCS_VFP => 7,
            CallingConv::PnaclCall => 8,
            CallingConv::IntelOclBicc => 9,
            CallingConv::X86_64Win64 => 10,
            CallingConv::X86_64SysV => 11,
            CallingConv::Invalid => 100,
            CallingConv::Unexposed => 200,
        }
    }
}

/// A code names at most one kind; unknown codes decode to `None`.
impl TryFrom<u32> for CallingConv {
    open spec fn decoded(v: u32) -> Option<CallingConv> {
        match v {
            0 => Some(CallingConv::Default),
            1 => Some(CallingConv::C),
            2 => Some(CallingConv::X86StdCall),
            3 => Some(CallingConv::X86FastCall),
            4 => Some(CallingConv::X86ThisCall),
            5 => Some(CallingConv::X86Pascal),
            6 => Some(CallingConv::AAPCS),
            7 => Some(CallingConv::AAPCS_VFP),
            8 => Some(CallingConv::PnaclCall),
            9 => Some(CallingConv::IntelOclBicc),
            10 => Some(CallingConv::X86_64Win64),
            11 => Some(CallingConv::X86_64SysV),
            100 => Some(CallingConv::Invalid),
            200 => Some(CallingConv::Unexposed),
            _ => None,
        }
    }

    fn try_from(v: u32) -> (r: Option<CallingConv>) {
        match v {
            0 => Some(CallingConv::Default),
            1 => Some(CallingConv::C),
            2 => Some(CallingConv::X86StdCall),
            3 => Some(CallingConv::X86FastCall),
            4 => Some(CallingConv::X86ThisCall),
            5 => Some(CallingConv::X86Pascal),
            6 => Some(CallingConv::AAPCS),
            7 => Some(CallingConv::AAPCS_VFP),
            8 => Some(CallingConv::PnaclCall),
            9 => Some(CallingConv::IntelOclBicc),
            10 => Some(CallingConv::X86_64Win64),
            11 => Some(CallingConv::X86_64SysV),
            100 => Some(CallingConv::Invalid),
            200 => Some(CallingConv::Unexposed),
            _ => None,
        }
    }
}

/// The kind of a cursor (`CXCursorKind`).
#[allow(non_camel_case_types)]
#[derive(PartialEq, Eq, Structural, Clone, Copy, Debug, Hash)]
pub enum CursorKind {
    UnexposedDecl,
    StructDecl,
    UnionDecl,
    ClassDecl,
    EnumDecl,
    FieldDecl,
    EnumConstantDecl,
    FunctionDecl,
    VarDecl,
    ParmDecl,
    ObjCInterfaceDecl,
    ObjCCategoryDecl,
    ObjCProtocolDecl,
    ObjCPropertyDecl,
    ObjCIvarDecl,
    ObjCInstanceMethodDecl,
    ObjCClassMethodDecl,
    ObjCImplementationDecl,
    ObjCCategoryImplDecl,
    TypedefDecl,
    CXXMethod,
    Namespace,
    LinkageSpec,
    Constructor,
    Destructor,
    ConversionFunction,
    TemplateTypeParameter,
    NonTypeTemplateParameter,
    TemplateTemplateParameter,
    FunctionTemplate,
    ClassTemplate,
    ClassTemplatePartialSpecialization,
    NamespaceAlias,
    UsingDirective,
    UsingDeclaration,
    TypeAliasDecl,
    ObjCSynthesizeDecl,
    ObjCDynamicDecl,
    CXXAccessSpecifier,
    ObjCSuperClassRef,
    ObjCProtocolRef,
    ObjCClassRef,
    TypeRef,
    CXXBaseSpecifier,
    TemplateRef,
    NamespaceRef,
    MemberRef,
    LabelRef,
    OverloadedDeclRef,
    VariableRef,
    InvalidFile,
    NoDeclFound,
    NotImplemented,
    InvalidCode,
    UnexposedExpr,
    DeclRefExpr,
    MemberRefExpr,
    CallExpr,
    ObjCMessageExpr,
    BlockExpr,
    IntegerLiteral,
    FloatingLiteral,
    ImaginaryLiteral,
    StringLiteral,
    CharacterLiteral,
    ParenExpr,
    UnaryOperator,
    ArraySubscriptExpr,
    BinaryOperator,
    CompoundAssignOperator,
    ConditionalOperator,
    CStyleCastExpr,
    CompoundLiteralExpr,
    InitListExpr,
    AddrLabelExpr,
    StmtExpr,
    GenericSelectionExpr,
    GNUNullExpr,
    CXXStaticCastExpr,
    CXXDynamicCastExpr,
    CXXReinterpretCastExpr,
    CXXConstCastExpr,
    CXXFunctionalCastExpr,
    CXXTypeidExpr,
    CXXBoolLiteralExpr,
    CXXNullPtrLiteralExpr,
    CXXThisExpr,
    CXXThrowExpr,
    CXXNewExpr,
    CXXDeleteExpr,
    UnaryExpr,
    ObjCStringLiteral,
    ObjCEncodeExpr,
    ObjCSelectorExpr,
    ObjCProtocolExpr,
    ObjCBridgedCastExpr,
    PackExpansionExpr,
    SizeOfPackExpr,
    LambdaExpr,
    ObjCBoolLiteralExpr,
    ObjCSelfExpr,
    UnexposedStmt,
    LabelStmt,
    CompoundStmt,
    CaseStmt,
    DefaultStmt,
    IfStmt,
    SwitchStmt,
    WhileStmt,
    DoStmt,
    ForStmt,
    GotoStmt,
    IndirectGotoStmt,
    ContinueStmt,
    BreakStmt,
    ReturnStmt,
    AsmStmt,
    ObjCAtTryStmt,
    ObjCAtCatchStmt,
    ObjCAtFinallyStmt,
    ObjCAtThrowStmt,
    ObjCAtSynchronizedStmt,
    ObjCAutoreleasePoolStmt,
    ObjCForCollectionStmt,
    CXXCatchStmt,
    CXXTryStmt,
    CXXForRangeStmt,
    SEHTryStmt,
    SEHExceptStmt,
    SEHFinallyStmt,
    MSAsmStmt,
    NullStmt,
    DeclStmt,
    OMPParallelDirective,
    TranslationUnit,
    UnexposedAttr,
    IBActionAttr,
    IBOutletAttr,
    IBOutletCollectionAttr,
    CXXFinalAttr,
    CXXOverrideAttr,
    AnnotateAttr,
    AsmLabelAttr,
    PackedAttr,
    PreprocessingDirective,
    MacroDefinition,
    MacroInstantiation,
    InclusionDirective,
    ModuleImportDecl,
}

impl CursorKind {
    /// The code libclang uses for the kind.
    pub open spec fn code(self) -> u32 {
        match self {
            CursorKind::UnexposedDecl => 1,
            CursorKind::StructDecl => 2,
            CursorKind::UnionDecl => 3,
            CursorKind::ClassDecl => 4,
            CursorKind::EnumDecl => 5,
            CursorKind::FieldDecl => 6,
            CursorKind::EnumConstantDecl => 7,
            CursorKind::FunctionDecl => 8,
            CursorKind::VarDecl => 9,
            CursorKind::ParmDecl => 10,
            CursorKind::ObjCInterfaceDecl => 11,
            CursorKind::ObjCCategoryDecl => 12,
            CursorKind::ObjCProtocolDecl => 13,
            CursorKind::ObjCPropertyDecl => 14,
            CursorKind::ObjCIvarDecl => 15,
            CursorKind::ObjCInstanceMethodDecl => 16,
            CursorKind::ObjCClassMethodDecl => 17,
            CursorKind::ObjCImplementationDecl => 18,
            CursorKind::ObjCCategoryImplDecl => 19,
            CursorKind::TypedefDecl => 20,
            CursorKind::CXXMethod => 21,
            CursorKind::Namespace => 22,
            CursorKind::LinkageSpec => 23,
            CursorKind::Constructor => 24,
            CursorKind::Destructor => 25,
            CursorKind::ConversionFunction => 26,
            CursorKind::TemplateTypeParameter => 27,
            CursorKind::NonTypeTemplateParameter => 28,
            CursorKind::TemplateTemplateParameter => 29,
            CursorKind::FunctionTemplate => 30,
            CursorKind::ClassTemplate => 31,
            CursorKind::ClassTemplatePartialSpecialization => 32,
            CursorKind::NamespaceAlias => 33,
            CursorKind::UsingDirective => 34,
            CursorKind::UsingDeclaration => 35,
            CursorKind::TypeAliasDecl => 36,
            CursorKind::ObjCSynthesizeDecl => 37,
            CursorKind::ObjCDynamicDecl => 38,
            CursorKind::CXXAccessSpecifier => 39,
            CursorKind::ObjCSuperClassRef => 40,
            CursorKind::ObjCProtocolRef => 41,
            CursorKind::ObjCClassRef => 42,
            CursorKind::TypeRef => 43,
            CursorKind::CXXBaseSpecifier => 44,
            CursorKind::TemplateRef => 45,
            CursorKind::NamespaceRef => 46,
            CursorKind::MemberRef => 47,
            CursorKind::LabelRef => 48,
            CursorKind::OverloadedDeclRef => 49,
            CursorKind::VariableRef => 50,
            CursorKind::InvalidFile => 70,
            CursorKind::NoDeclFound => 71,
            CursorKind::NotImplemented => 72,
            CursorKind::InvalidCode => 73,
            CursorKind::UnexposedExpr => 100,
            CursorKind::DeclRefExpr => 101,
            CursorKind::MemberRefExpr => 102,
            CursorKind::CallExpr => 103,
            CursorKind::ObjCMessageExpr => 104,
            CursorKind::BlockExpr => 105,
            CursorKind::IntegerLiteral => 106,
            CursorKind::FloatingLiteral => 107,
            CursorKind::ImaginaryLiteral => 108,
            CursorKind::StringLiteral => 109,
            CursorKind::CharacterLiteral => 110,
            CursorKind::ParenExpr => 111,
            CursorKind::UnaryOperator => 112,
            CursorKind::ArraySubscriptExpr => 113,
            CursorKind::BinaryOperator => 114,
            CursorKind::CompoundAssignOperator => 115,
            CursorKind::ConditionalOperator => 116,
            CursorKind::CStyleCastExpr => 117,
            CursorKind::CompoundLiteralExpr => 118,
            CursorKind::InitListExpr => 119,
            CursorKind::AddrLabelExpr => 120,
            CursorKind::StmtExpr => 121,
            CursorKind::GenericSelectionExpr => 122,
            CursorKind::GNUNullExpr => 123,
            CursorKind::CXXStaticCastExpr => 124,
            CursorKind::CXXDynamicCastExpr => 125,
            CursorKind::CXXReinterpretCastExpr => 126,
            CursorKind::CXXConstCastExpr => 127,
            CursorKind::CXXFunctionalCastExpr => 128,
            CursorKind::CXXTypeidExpr => 129,
            CursorKind::CXXBoolLiteralExpr => 130,
            CursorKind::CXXNullPtrLiteralExpr => 131,
            CursorKind::CXXThisExpr => 132,
            CursorKind::CXXThrowExpr => 133,
            CursorKind::CXXNewExpr => 134,
            CursorKind::CXXDeleteExpr => 135,
            CursorKind::UnaryExpr => 136,
            CursorKind::ObjCStringLiteral => 137,
            CursorKind::ObjCEncodeExpr => 138,
            CursorKind::ObjCSelectorExpr => 139,
            CursorKind::ObjCProtocolExpr => 140,
            CursorKind::ObjCBridgedCastExpr => 141,
            CursorKind::PackExpansionExpr => 142,
            CursorKind::SizeOfPackExpr => 143,
            CursorKind::LambdaExpr => 144,
            CursorKind::ObjCBoolLiteralExpr => 145,
            CursorKind::ObjCSelfExpr => 146,
            CursorKind::UnexposedStmt => 200,
            CursorKind::LabelStmt => 201,
            CursorKind::CompoundStmt => 202,
            CursorKind::CaseStmt => 203,
            CursorKind::DefaultStmt => 204,
            CursorKind::IfStmt => 205,
            CursorKind::SwitchStmt => 206,
            CursorKind::WhileStmt => 207,
            CursorKind::DoStmt => 208,
            CursorKind::ForStmt => 209,
            CursorKind::GotoStmt => 210,
            CursorKind::IndirectGotoStmt => 211,
            CursorKind::ContinueStmt => 212,
            CursorKind::BreakStmt => 213,
            CursorKind::ReturnStmt => 214,
            CursorKind::AsmStmt => 215,
            CursorKind::ObjCAtTryStmt => 216,
            CursorKind::ObjCAtCatchStmt => 217,
            CursorKind::ObjCAtFinallyStmt => 218,
            CursorKind::ObjCAtThrowStmt => 219,
            CursorKind::ObjCAtSynchronizedStmt => 220,
            CursorKind::ObjCAutoreleasePoolStmt => 221,
            CursorKind::ObjCForCollectionStmt => 222,
            CursorKind::CXXCatchStmt => 223,
            CursorKind::CXXTryStmt => 224,
            CursorKind::CXXForRangeStmt => 225,
            CursorKind::SEHTryStmt => 226,
            CursorKind::SEHExceptStmt => 227,
            CursorKind::SEHFinallyStmt => 228,
            CursorKind::MSAsmStmt => 229,
            CursorKind::NullStmt => 230,
            CursorKind::DeclStmt => 231,
            CursorKind::OMPParallelDirective => 232,
            CursorKind::TranslationUnit => 300,
            CursorKind::UnexposedAttr => 400,
            CursorKind::IBActionAttr => 401,
            CursorKind::IBOutletAttr => 402,
            CursorKind::IBOutletCollectionAttr => 403,
            CursorKind::CXXFinalAttr => 404,
            CursorKind::CXXOverrideAttr => 405,
            CursorKind::AnnotateAttr => 406,
            CursorKind::AsmLabelAttr => 407,
            CursorKind::PackedAttr => 408,
            CursorKind::PreprocessingDirective => 500,
            CursorKind::MacroDefinition => 501,
            CursorKind::MacroInstantiation => 502,
            CursorKind::InclusionDirective => 503,
            CursorKind::ModuleImportDecl => 600,
        }
    }

    /// The code libclang uses for the kind.
    pub fn raw(self) -> (r: u32)
        ensures
            r == self.code(),
    {
        match self {
            CursorKind::UnexposedDecl => 1,
            CursorKind::StructDecl => 2,
            CursorKind::UnionDecl => 3,
            CursorKind::ClassDecl => 4,
            CursorKind::EnumDecl => 5,
            CursorKind::FieldDecl => 6,
            CursorKind::EnumConstantDecl => 7,
            CursorKind::FunctionDecl => 8,
            CursorKind::VarDecl => 9,
            CursorKind::ParmDecl => 10,
            CursorKind::ObjCInterfaceDecl => 11,
            CursorKind::ObjCCategoryDecl => 12,
            CursorKind::ObjCProtocolDecl => 13,
            CursorKind::ObjCPropertyDecl => 14,
            CursorKind::ObjCIvarDecl => 15,
            CursorKind::ObjCInstanceMethodDecl => 16,
            CursorKind::ObjCClassMethodDecl => 17,
            CursorKind::ObjCImplementationDecl => 18,
            CursorKind::ObjCCategoryImplDecl => 19,
            CursorKind::TypedefDecl => 20,
            CursorKind::CXXMethod => 21,
            CursorKind::Namespace => 22,
            CursorKind::LinkageSpec => 23,
            CursorKind::Constructor => 24,
            CursorKind::Destructor => 25,
            CursorKind::ConversionFunction => 26,
            CursorKind::TemplateTypeParameter => 27,
            CursorKind::NonTypeTemplateParameter => 28,
            CursorKind::TemplateTemplateParameter => 29,
            CursorKind::FunctionTemplate => 30,
            CursorKind::ClassTemplate => 31,
            CursorKind::ClassTemplatePartialSpecialization => 32,
            CursorKind::NamespaceAlias => 33,
            CursorKind::UsingDirective => 34,
            CursorKind::UsingDeclaration => 35,
            CursorKind::TypeAliasDecl => 36,
            CursorKind::ObjCSynthesizeDecl => 37,
            CursorKind::ObjCDynamicDecl => 38,
            CursorKind::CXXAccessSpecifier => 39,
            CursorKind::ObjCSuperClassRef => 40,
            CursorKind::ObjCProtocolRef => 41,
            CursorKind::ObjCClassRef => 42,
            CursorKind::TypeRef => 43,
            CursorKind::CXXBaseSpecifier => 44,
            CursorKind::TemplateRef => 45,
            CursorKind::NamespaceRef => 46,
            CursorKind::MemberRef => 47,
            CursorKind::LabelRef => 48,
            CursorKind::OverloadedDeclRef => 49,
            CursorKind::VariableRef => 50,
            CursorKind::InvalidFile => 70,
            CursorKind::NoDeclFound => 71,
            CursorKind::NotImplemented => 72,
            CursorKind::InvalidCode => 73,
            CursorKind::UnexposedExpr => 100,
            CursorKind::DeclRefExpr => 101,
            CursorKind::MemberRefExpr => 102,
            CursorKind::CallExpr => 103,
            CursorKind::ObjCMessageExpr => 104,
            CursorKind::BlockExpr => 105,
            CursorKind::IntegerLiteral => 106,
            CursorKind::FloatingLiteral => 107,
            CursorKind::ImaginaryLiteral => 108,
            CursorKind::StringLiteral => 109,
            CursorKind::CharacterLiteral => 110,
            CursorKind::ParenExpr => 111,
            CursorKind::UnaryOperator => 112,
            CursorKind::ArraySubscriptExpr => 113,
            CursorKind::BinaryOperator => 114,
            CursorKind::CompoundAssignOperator => 115,
            CursorKind::ConditionalOperator => 116,
            CursorKind::CStyleCastExpr => 117,
            CursorKind::CompoundLiteralExpr => 118,
            CursorKind::InitListExpr => 119,
            CursorKind::AddrLabelExpr => 120,
            CursorKind::StmtExpr => 121,
            CursorKind::GenericSelectionExpr => 122,
            CursorKind::GNUNullExpr => 123,
            CursorKind::CXXStaticCastExpr => 124,
            CursorKind::CXXDynamicCastExpr => 125,
            CursorKind::CXXReinterpretCastExpr => 126,
            CursorKind::CXXConstCastExpr => 127,
            CursorKind::CXXFunctionalCastExpr => 128,
            CursorKind::CXXTypeidExpr => 129,
            CursorKind::CXXBoolLiteralExpr => 130,
            CursorKind::CXXNullPtrLiteralExpr => 131,
            CursorKind::CXXThisExpr => 132,
            CursorKind::CXXThrowExpr => 133,
            CursorKind::CXXNewExpr => 134,
            CursorKind::CXXDeleteExpr => 135,
            CursorKind::UnaryExpr => 136,
            CursorKind::ObjCStringLiteral => 137,
            CursorKind::ObjCEncodeExpr => 138,
            CursorKind::ObjCSelectorExpr => 139,
            CursorKind::ObjCProtocolExpr => 140,
            CursorKind::ObjCBridgedCastExpr => 141,
            CursorKind::PackExpansionExpr => 142,
            CursorKind::SizeOfPackExpr => 143,
            CursorKind::LambdaExpr => 144,
            CursorKind::ObjCBoolLiteralExpr => 145,
            CursorKind::ObjCSelfExpr => 146,
            CursorKind::UnexposedStmt => 200,
            CursorKind::LabelStmt => 201,
            CursorKind::CompoundStmt => 202,
            CursorKind::CaseStmt => 203,
            CursorKind::DefaultStmt => 204,
            CursorKind::IfStmt => 205,
            CursorKind::SwitchStmt => 206,
            CursorKind::WhileStmt => 207,
            CursorKind::DoStmt => 208,
            CursorKind::ForStmt => 209,
            CursorKind::GotoStmt => 210,
            CursorKind::IndirectGotoStmt => 211,
            CursorKind::ContinueStmt => 212,
            CursorKind::BreakStmt => 213,
            CursorKind::ReturnStmt => 214,
            CursorKind::AsmStmt => 215,
            CursorKind::ObjCAtTryStmt => 216,
            CursorKind::ObjCAtCatchStmt => 217,
            CursorKind::ObjCAtFinallyStmt => 218,
            CursorKind::ObjCAtThrowStmt => 219,
            CursorKind::ObjCAtSynchronizedStmt => 220,
            CursorKind::ObjCAutoreleasePoolStmt => 221,
            CursorKind::ObjCForCollectionStmt => 222,
            CursorKind::CXXCatchStmt => 223,
            CursorKind::CXXTryStmt => 224,
            CursorKind::CXXForRangeStmt => 225,
            CursorKind::SEHTryStmt => 226,
            CursorKind::SEHExceptStmt => 227,
            CursorKind::SEHFinallyStmt => 228,
            CursorKind::MSAsmStmt => 229,
            CursorKind::NullStmt => 230,
            CursorKind::DeclStmt => 231,
            CursorKind::OMPParallelDirective => 232,
            CursorKind::TranslationUnit => 300,
            CursorKind::UnexposedAttr => 400,
            CursorKind::IBActionAttr => 401,
            CursorKind::IBOutletAttr => 402,
            CursorKind::IBOutletCollectionAttr => 403,
            CursorKind::CXXFinalAttr => 404,
            CursorKind::CXXOverrideAttr => 405,
            CursorKind::AnnotateAttr => 406,
            CursorKind::AsmLabelAttr => 407,
            CursorKind::PackedAttr => 408,
            CursorKind::PreprocessingDirective => 500,
            CursorKind::MacroDefinition => 501,
            CursorKind::MacroInstantiation => 502,
            CursorKind::InclusionDirective => 503,
            CursorKind::ModuleImportDecl => 600,
        }
    }
}

/// A code names at most one kind; unknown codes decode to `None`.
impl TryFrom<u32> for CursorKind {
    open spec fn decoded(v: u32) -> Option<CursorKind> {
        match v {
            1 => Some(CursorKind::UnexposedDecl),
            2 => Some(CursorKind::StructDecl),
            3 => Some(CursorKind::UnionDecl),
            4 => Some(CursorKind::ClassDecl),
            5 => Some(CursorKind::EnumDecl),
            6 => Some(CursorKind::FieldDecl),
            7 => Some(CursorKind::EnumConstantDecl),
            8 => Some(CursorKind::FunctionDecl),
            9 => Some(CursorKind::VarDecl),
            10 => Some(CursorKind::ParmDecl),
            11 => Some(CursorKind::ObjCInterfaceDecl),
            12 => Some(CursorKind::ObjCCategoryDecl),
            13 => Some(CursorKind::ObjCProtocolDecl),
            14 => Some(CursorKind::ObjCPropertyDecl),
            15 => Some(CursorKind::ObjCIvarDecl),
            16 => Some(CursorKind::ObjCInstanceMethodDecl),
            17 => Some(CursorKind::ObjCClassMethodDecl),
            18 => Some(CursorKind::ObjCImplementationDecl),
            19 => Some(CursorKind::ObjCCategoryImplDecl),
            20 => Some(CursorKind::TypedefDecl),
            21 => Some(CursorKind::CXXMethod),
            22 => Some(CursorKind::Namespace),
            23 => Some(CursorKind::LinkageSpec),
            24 => Some(CursorKind::Constructor),
            25 => Some(CursorKind::Destructor),
            26 => Some(CursorKind::ConversionFunction),
            27 => Some(CursorKind::TemplateTypeParameter),
            28 => Some(CursorKind::NonTypeTemplateParameter),
            29 => Some(CursorKind::TemplateTemplateParameter),
            30 => Some(CursorKind::FunctionTemplate),
            31 => Some(CursorKind::ClassTemplate),
            32 => Some(CursorKind::ClassTemplatePartialSpecialization),
            33 => Some(CursorKind::NamespaceAlias),
            34 => Some(CursorKind::UsingDirective),
            35 => Some(CursorKind::UsingDeclaration),
            36 => Some(CursorKind::TypeAliasDecl),
            37 => Some(CursorKind::ObjCSynthesizeDecl),
            38 => Some(CursorKind::ObjCDynamicDecl),
            39 => Some(CursorKind::CXXAccessSpecifier),
            40 => Some(CursorKind::ObjCSuperClassRef),
            41 => Some(CursorKind::ObjCProtocolRef),
            42 => Some(CursorKind::ObjCClassRef),
            43 => Some(CursorKind::TypeRef),
            44 => Some(CursorKind::CXXBaseSpecifier),
            45 => Some(CursorKind::TemplateRef),
            46 => Some(CursorKind::NamespaceRef),
            47 => Some(CursorKind::MemberRef),
            48 => Some(CursorKind::LabelRef),
            49 => Some(CursorKind::OverloadedDeclRef),
            50 => Some(CursorKind::VariableRef),
            70 => Some(CursorKind::InvalidFile),
            71 => Some(CursorKind::NoDeclFound),
            72 => Some(CursorKind::NotImplemented),
            73 => Some(CursorKind::InvalidCode),
            100 => Some(CursorKind::UnexposedExpr),
            101 => Some(CursorKind::DeclRefExpr),
            102 => Some(CursorKind::MemberRefExpr),
            103 => Some(CursorKind::CallExpr),
            104 => Some(CursorKind::ObjCMessageExpr),
            105 => Some(CursorKind::BlockExpr),
            106 => Some(CursorKind::IntegerLiteral),
            107 => Some(CursorKind::FloatingLiteral),
            108 => Some(CursorKind::ImaginaryLiteral),
            109 => Some(CursorKind::StringLiteral),
            110 => Some(CursorKind::CharacterLiteral),
            111 => Some(CursorKind::ParenExpr),
            112 => Some(CursorKind::UnaryOperator),
            113 => Some(CursorKind::ArraySubscriptExpr),
            114 => Some(CursorKind::BinaryOperator),
            115 => Some(CursorKind::CompoundAssignOperator),
            116 => Some(CursorKind::ConditionalOperator),
            117 => Some(CursorKind::CStyleCastExpr),
            118 => Some(CursorKind::CompoundLiteralExpr),
            119 => Some(CursorKind::InitListExpr),
            120 => Some(CursorKind::AddrLabelExpr),
            121 => Some(CursorKind::StmtExpr),
            122 => Some(CursorKind::GenericSelectionExpr),
            123 => Some(CursorKind::GNUNullExpr),
            124 => Some(CursorKind::CXXStaticCastExpr),
            125 => Some(CursorKind::CXXDynamicCastExpr),
            126 => Some(CursorKind::CXXReinterpretCastExpr),
            127 => Some(CursorKind::CXXConstCastExpr),
            128 => Some(CursorKind::CXXFunctionalCastExpr),
            129 => Some(CursorKind::CXXTypeidExpr),
            130 => Some(CursorKind::CXXBoolLiteralExpr),
            131 => Some(CursorKind::CXXNullPtrLiteralExpr),
            132 => Some(CursorKind::CXXThisExpr),
            133 => Some(CursorKind::CXXThrowExpr),
            134 => Some(CursorKind::CXXNewExpr),
            135 => Some(CursorKind::CXXDeleteExpr),
            136 => Some(CursorKind::UnaryExpr),
            137 => Some(CursorKind::ObjCStringLiteral),
            138 => Some(CursorKind::ObjCEncodeExpr),
            139 => Some(CursorKind::ObjCSelectorExpr),
            140 => Some(CursorKind::ObjCProtocolExpr),
            141 => Some(CursorKind::ObjCBridgedCastExpr),
            142 => Some(CursorKind::PackExpansionExpr),
            143 => Some(CursorKind::SizeOfPackExpr),
            144 => Some(CursorKind::LambdaExpr),
            145 => Some(CursorKind::ObjCBoolLiteralExpr),
            146 => Some(CursorKind::ObjCSelfExpr),
            200 => Some(CursorKind::UnexposedStmt),
            201 => Some(CursorKind::LabelStmt),
            202 => Some(CursorKind::CompoundStmt),
            203 => Some(CursorKind::CaseStmt),
            204 => Some(CursorKind::DefaultStmt),
            205 => Some(CursorKind::IfStmt),
            206 => Some(CursorKind::SwitchStmt),
            207 => Some(CursorKind::WhileStmt),
            208 => Some(CursorKind::DoStmt),
            209 => Some(CursorKind::ForStmt),
            210 => Some(CursorKind::GotoStmt),
            211 => Some(CursorKind::IndirectGotoStmt),
            212 => Some(CursorKind::ContinueStmt),
            213 => Some(CursorKind::BreakStmt),
            214 => Some(CursorKind::ReturnStmt),
            215 => Some(CursorKind::AsmStmt),
            216 => Some(CursorKind::ObjCAtTryStmt),
            217 => Some(CursorKind::ObjCAtCatchStmt),
            218 => Some(CursorKind::ObjCAtFinallyStmt),
            219 => Some(CursorKind::ObjCAtThrowStmt),
            220 => Some(CursorKind::ObjCAtSynchronizedStmt),
            221 => Some(CursorKind::ObjCAutoreleasePoolStmt),
            222 => Some(CursorKind::ObjCForCollectionStmt),
            223 => Some(CursorKind::CXXCatchStmt),
            224 => Some(CursorKind::CXXTryStmt),
            225 => Some(CursorKind::CXXForRangeStmt),
            226 => Some(CursorKind::SEHTryStmt),
            227 => Some(CursorKind::SEHExceptStmt),
            228 => Some(CursorKind::SEHFinallyStmt),
            229 => Some(CursorKind::MSAsmStmt),
            230 => Some(CursorKind::NullStmt),
            231 => Some(CursorKind::DeclStmt),
            232 => Some(CursorKind::OMPParallelDirective),
            300 => Some(CursorKind::TranslationUnit),
            400 => Some(CursorKind::UnexposedAttr),
            401 => Some(CursorKind::IBActionAttr),
            402 => Some(CursorKind::IBOutletAttr),
            403 => Some(CursorKind::IBOutletCollectionAttr),
            404 => Some(CursorKind::CXXFinalAttr),
            405 => Some(CursorKind::CXXOverrideAttr),
            406 => Some(CursorKind::AnnotateAttr),
            407 => Some(CursorKind::AsmLabelAttr),
            408 => Some(CursorKind::PackedAttr),
            500 => Some(CursorKind::PreprocessingDirective),
            501 => Some(CursorKind::MacroDefinition),
            502 => Some(CursorKind::MacroInstantiation),
            503 => Some(CursorKind::InclusionDirective),
            600 => Some(CursorKind::ModuleImportDecl),
            _ => None,
        }
    }

    fn try_from(v: u32) -> (r: Option<CursorKind>) {
        match v {
            1 => Some(CursorKind::UnexposedDecl),
            2 => Some(CursorKind::StructDecl),
            3 => Some(CursorKind::UnionDecl),
            4 => Some(CursorKind::ClassDecl),
            5 => Some(CursorKind::EnumDecl),
            6 => Some(CursorKind::FieldDecl),
            7 => Some(CursorKind::EnumConstantDecl),
            8 => Some(CursorKind::FunctionDecl),
            9 => Some(CursorKind::VarDecl),
            10 => Some(CursorKind::ParmDecl),
            11 => Some(CursorKind::ObjCInterfaceDecl),
            12 => Some(CursorKind::ObjCCategoryDecl),
            13 => Some(CursorKind::ObjCProtocolDecl),
            14 => Some(CursorKind::ObjCPropertyDecl),
            15 => Some(CursorKind::ObjCIvarDecl),
            16 => Some(CursorKind::ObjCInstanceMethodDecl),
            17 => Some(CursorKind::ObjCClassMethodDecl),
            18 => Some(CursorKind::ObjCImplementationDecl),
            19 => Some(CursorKind::ObjCCategoryImplDecl),
            20 => Some(CursorKind::TypedefDecl),
            21 => Some(CursorKind::CXXMethod),
            22 => Some(CursorKind::Namespace),
            23 => Some(CursorKind::LinkageSpec),
            24 => Some(CursorKind::Constructor),
            25 => Some(CursorKind::Destructor),
            26 => Some(CursorKind::ConversionFunction),
            27 => Some(CursorKind::TemplateTypeParameter),
            28 => Some(CursorKind::NonTypeTemplateParameter),
            29 => Some(CursorKind::TemplateTemplateParameter),
            30 => Some(CursorKind::FunctionTemplate),
            31 => Some(CursorKind::ClassTemplate),
            32 => Some(CursorKind::ClassTemplatePartialSpecialization),
            33 => Some(CursorKind::NamespaceAlias),
            34 => Some(CursorKind::UsingDirective),
            35 => Some(CursorKind::UsingDeclaration),
            36 => Some(CursorKind::TypeAliasDecl),
            37 => Some(CursorKind::ObjCSynthesizeDecl),
            38 => Some(CursorKind::ObjCDynamicDecl),
            39 => Some(CursorKind::CXXAccessSpecifier),
            40 => Some(CursorKind::ObjCSuperClassRef),
            41 => Some(CursorKind::ObjCProtocolRef),
            42 => Some(CursorKind::ObjCClassRef),
            43 => Some(CursorKind::TypeRef),
            44 => Some(CursorKind::CXXBaseSpecifier),
            45 => Some(CursorKind::TemplateRef),
            46 => Some(CursorKind::NamespaceRef),
            47 => Some(CursorKind::MemberRef),
            48 => Some(CursorKind::LabelRef),
            49 => Some(CursorKind::OverloadedDeclRef),
            50 => Some(CursorKind::VariableRef),
            70 => Some(CursorKind::InvalidFile),
            71 => Some(CursorKind::NoDeclFound),
            72 => Some(CursorKind::NotImplemented),
            73 => Some(CursorKind::InvalidCode),
            100 => Some(CursorKind::UnexposedExpr),
            101 => Some(CursorKind::DeclRefExpr),
            102 => Some(CursorKind::MemberRefExpr),
            103 => Some(CursorKind::CallExpr),
            104 => Some(CursorKind::ObjCMessageExpr),
            105 => Some(CursorKind::BlockExpr),
            106 => Some(CursorKind::IntegerLiteral),
            107 => Some(CursorKind::FloatingLiteral),
            108 => Some(CursorKind::ImaginaryLiteral),
            109 => Some(CursorKind::StringLiteral),
            110 => Some(CursorKind::CharacterLiteral),
            111 => Some(CursorKind::ParenExpr),
            112 => Some(CursorKind::UnaryOperator),
            113 => Some(CursorKind::ArraySubscriptExpr),
            114 => Some(CursorKind::BinaryOperator),
            115 => Some(CursorKind::CompoundAssignOperator),
            116 => Some(CursorKind::ConditionalOperator),
            117 => Some(CursorKind::CStyleCastExpr),
            118 => Some(CursorKind::CompoundLiteralExpr),
            119 => Some(CursorKind::InitListExpr),
            120 => Some(CursorKind::AddrLabelExpr),
            121 => Some(CursorKind::StmtExpr),
            122 => Some(CursorKind::GenericSelectionExpr),
            123 => Some(CursorKind::GNUNullExpr),
            124 => Some(CursorKind::CXXStaticCastExpr),
            125 => Some(CursorKind::CXXDynamicCastExpr),
            126 => Some(CursorKind::CXXReinterpretCastExpr),
            127 => Some(CursorKind::CXXConstCastExpr),
            128 => Some(CursorKind::CXXFunctionalCastExpr),
            129 => Some(CursorKind::CXXTypeidExpr),
            130 => Some(CursorKind::CXXBoolLiteralExpr),
            131 => Some(CursorKind::CXXNullPtrLiteralExpr),
            132 => Some(CursorKind::CXXThisExpr),
            133 => Some(CursorKind::CXXThrowExpr),
            134 => Some(CursorKind::CXXNewExpr),
            135 => Some(CursorKind::CXXDeleteExpr),
            136 => Some(CursorKind::UnaryExpr),
            137 => Some(CursorKind::ObjCStringLiteral),
            138 => Some(CursorKind::ObjCEncodeExpr),
            139 => Some(CursorKind::ObjCSelectorExpr),
            140 => Some(CursorKind::ObjCProtocolExpr),
            141 => Some(CursorKind::ObjCBridgedCastExpr),
            142 => Some(CursorKind::PackExpansionExpr),
            143 => Some(CursorKind::SizeOfPackExpr),
            144 => Some(CursorKind::LambdaExpr),
            145 => Some(CursorKind::ObjCBoolLiteralExpr),
            146 => Some(CursorKind::ObjCSelfExpr),
            200 => Some(CursorKind::UnexposedStmt),
            201 => Some(CursorKind::LabelStmt),
            202 => Some(CursorKind::CompoundStmt),
            203 => Some(CursorKind::CaseStmt),
            204 => Some(CursorKind::DefaultStmt),
            205 => Some(CursorKind::IfStmt),
            206 => Some(CursorKind::SwitchStmt),
            207 => Some(CursorKind::WhileStmt),
            208 => Some(CursorKind::DoStmt),
            209 => Some(CursorKind::ForStmt),
            210 => Some(CursorKind::GotoStmt),
            211 => Some(CursorKind::IndirectGotoStmt),
            212 => Some(CursorKind::ContinueStmt),
            213 => Some(CursorKind::BreakStmt),
            214 => Some(CursorKind::ReturnStmt),
            215 => Some(CursorKind::AsmStmt),
            216 => Some(CursorKind::ObjCAtTryStmt),
            217 => Some(CursorKind::ObjCAtCatchStmt),
            218 => Some(CursorKind::ObjCAtFinallyStmt),
            219 => Some(CursorKind::ObjCAtThrowStmt),
            220 => Some(CursorKind::ObjCAtSynchronizedStmt),
            221 => Some(CursorKind::ObjCAutoreleasePoolStmt),
            222 => Some(CursorKind::ObjCForCollectionStmt),
            223 => Some(CursorKind::CXXCatchStmt),
            224 => Some(CursorKind::CXXTryStmt),
            225 => Some(CursorKind::CXXForRangeStmt),
            226 => Some(CursorKind::SEHTryStmt),
            227 => Some(CursorKind::SEHExceptStmt),
            228 => Some(CursorKind::SEHFinallyStmt),
            229 => Some(CursorKind::MSAsmStmt),
            230 => Some(CursorKind::NullStmt),
            231 => Some(CursorKind::DeclStmt),
            232 => Some(CursorKind::OMPParallelDirective),
            300 => Some(CursorKind::TranslationUnit),
            400 => Some(CursorKind::UnexposedAttr),
            401 => Some(CursorKind::IBActionAttr),
            402 => Some(CursorKind::IBOutletAttr),
            403 => Some(CursorKind::IBOutletCollectionAttr),
            404 => Some(CursorKind::CXXFinalAttr),
            405 => Some(CursorKind::CXXOverrideAttr),
            406 => Some(CursorKind::AnnotateAttr),
            407 => Some(CursorKind::AsmLabelAttr),
            408 => Some(CursorKind::PackedAttr),
            500 => Some(CursorKind::PreprocessingDirective),
            501 => Some(CursorKind::MacroDefinition),
            502 => Some(CursorKind::MacroInstantiation),
            503 => Some(CursorKind::InclusionDirective),
            600 => Some(CursorKind::ModuleImportDecl),
            _ => None,
        }
    }
}

} // verus!
