//! Attribute types: the names under which attributes are stored.
#![allow(non_upper_case_globals)]
use vstd::prelude::*;

verus! {

pub const ConstantValue: &'static str = "ConstantValue";
pub const Code: &'static str = "Code";
pub const StackMapTable: &'static str = "StackMapTable";
pub const Exceptions: &'static str = "Exceptions";
pub const BootstrapMethods: &'static str = "BootstrapMethods";
pub const InnerClasses: &'static str = "InnerClasses";
pub const EnclosingMethod: &'static str = "EnclosingMethod";
pub const Synthetic: &'static str = "Synthetic";
pub const Signature: &'static str = "Signature";
pub const RuntimeVisibleAnnotations: &'static str = "RuntimeVisibleAnnotations";
pub const RuntimeInvisibleAnnotations: &'static str = "RuntimeInvisibleAnnotations";
pub const RuntimeVisibleParameterAnnotations: &'static str = "RuntimeVisibleParameterAnnotations";
pub const RuntimeInvisibleParameterAnnotations: &'static str = "RuntimeInvisibleParameterAnnotations";
pub const RuntimeVisibleTypeAnnotations: &'static str = "RuntimeVisibleTypeAnnotations";
pub const RuntimeInvisibleTypeAnnotations: &'static str = "RuntimeInvisibleTypeAnnotations";
pub const AnnotationDefault: &'static str = "AnnotationDefault";
pub const MethodParameters: &'static str = "MethodParameters";
pub const SourceFile: &'static str = "SourceFile";
pub const SourceDebugExtension: &'static str = "SourceDebugExtension";
pub const LineNumberTable: &'static str = "LineNumberTable";
pub const LocalVariableTable: &'static str = "LocalVariableTable";
pub const LocalVariableTypeTable: &'static str = "LocalVariableTypeTable";
pub const Deprecated: &'static str = "Deprecated";

} // verus!
