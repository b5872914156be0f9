use builder::classify::{classify, Category};
use builder::ident::Identifier;
use builder::schema::{
    Data, DeriveInput, FieldDescriptor, Fields, PathSegment, TypeDescriptor, TypeShape,
};
use quote::ToTokens;

fn read_type(ty: &syn::Type) -> TypeDescriptor {
    let shape = match ty {
        syn::Type::Path(path) => {
            TypeShape::Path(path.path.segments.iter().map(read_segment).collect())
        },
        _ => TypeShape::Other,
    };
    TypeDescriptor { tokens: ty.to_token_stream(), shape }
}

fn read_segment(segment: &syn::PathSegment) -> PathSegment {
    let arguments = match &segment.arguments {
        syn::PathArguments::AngleBracketed(list) => list
            .args
            .iter()
            .filter_map(|argument| match argument {
                syn::GenericArgument::Type(ty) => Some(read_type(ty)),
                _ => None,
            })
            .collect(),
        _ => Vec::new(),
    };
    PathSegment { ident: segment.ident.to_string(), arguments }
}

fn read_fields(fields: &syn::Fields) -> Fields {
    match fields {
        syn::Fields::Named(fields) => Fields::Named(
            fields
                .named
                .iter()
                .map(|field| FieldDescriptor {
                    name: Identifier::new(&field.ident.as_ref().unwrap().to_string()).unwrap(),
                    declared_type: read_type(&field.ty),
                })
                .collect(),
        ),
        syn::Fields::Unnamed(_) => Fields::Unnamed,
        syn::Fields::Unit => Fields::Unit,
    }
}

fn read(source: &str) -> DeriveInput {
    let input: syn::DeriveInput = syn::parse_str(source).unwrap();
    let data = match &input.data {
        syn::Data::Struct(structure) => Data::Struct(read_fields(&structure.fields)),
        syn::Data::Enum(_) => Data::Enum,
        syn::Data::Union(_) => Data::Union,
    };
    DeriveInput { ident: Identifier::new(&input.ident.to_string()).unwrap(), data }
}

fn category_of(source: &str) -> Category {
    let ty: syn::Type = syn::parse_str(source).unwrap();
    classify(&read_type(&ty)).category()
}

fn printed(text: &str) -> String {
    text.parse::<proc_macro2::TokenStream>().unwrap().to_string()
}

#[test]
fn a_parsed_structure_gets_its_builder() {
    let input = read(
        "pub struct Command {
            executable: String,
            args: Vec<String>,
            env: Vec<String>,
            current_dir: Option<String>,
        }",
    );
    let generated = builder::derive(&input);
    let expected = r#"
        pub struct CommandBuilder {
            executable : Option < String > ,
            args : Option < Vec < String > > ,
            env : Option < Vec < String > > ,
            current_dir : Option < String > ,
        }
        impl Command {
            pub fn builder () -> CommandBuilder {
                CommandBuilder { executable : None , args : None , env : None , current_dir : None }
            }
        }
        impl CommandBuilder {
            fn executable (& mut self , executable : String) -> & mut Self {
                self . executable = Some (executable) ; self
            }
            fn args (& mut self , args : Vec < String >) -> & mut Self {
                self . args = Some (args) ; self
            }
            fn env (& mut self , env : Vec < String >) -> & mut Self {
                self . env = Some (env) ; self
            }
            fn current_dir (& mut self , current_dir : String) -> & mut Self {
                self . current_dir = Some (current_dir) ; self
            }
            pub fn build (& mut self) -> std :: result :: Result < Command , std :: boxed :: Box < dyn std :: error :: Error > > {
                if self . executable . is_none () {
                    return Err ("field executable is not set" . into ()) ;
                }
                Ok (Command {
                    executable : self . executable . clone () . unwrap () ,
                    args : self . args . clone () . unwrap_or_else (std :: vec :: Vec :: new) ,
                    env : self . env . clone () . unwrap_or_else (std :: vec :: Vec :: new) ,
                    current_dir : self . current_dir . clone ()
                })
            }
        }
    "#;
    assert_eq!(generated.to_string(), printed(expected));
}

#[test]
fn parsed_types_are_classified_by_their_last_segment() {
    assert_eq!(category_of("String"), Category::Mandatory);
    assert_eq!(category_of("Option<String>"), Category::Optional);
    assert_eq!(category_of("std::option::Option<u8>"), Category::Optional);
    assert_eq!(category_of("::core::option::Option<Vec<u8>>"), Category::Optional);
    assert_eq!(category_of("Vec<Option<u8>>"), Category::Repeated);
    assert_eq!(category_of("std::vec::Vec<u8>"), Category::Repeated);
    assert_eq!(category_of("HashMap<String, u8>"), Category::Mandatory);
    assert_eq!(category_of("Box<Option<u8>>"), Category::Mandatory);
    assert_eq!(category_of("&'static str"), Category::Mandatory);
    assert_eq!(category_of("(Option<u8>,)"), Category::Mandatory);
    assert_eq!(category_of("[Option<u8>; 2]"), Category::Mandatory);
    assert_eq!(category_of("fn() -> Option<u8>"), Category::Mandatory);
    assert_eq!(category_of("Option"), Category::Mandatory);
}

#[test]
fn a_parsed_structure_with_mixed_types_gives_rust() {
    let input = read(
        "struct Mixed<'a> {
            name: &'a str,
            pairs: std::collections::HashMap<String, Vec<u8>>,
            sizes: [usize; 3],
            maybe: ::core::option::Option<(u8, u8)>,
            many: std::vec::Vec<Option<String>>,
        }",
    );
    let generated = builder::derive(&input);
    let file: syn::File = syn::parse2(generated).unwrap();
    assert_eq!(file.items.len(), 3);
    let methods = match &file.items[2] {
        syn::Item::Impl(item) => item,
        _ => panic!("the third item is not a block of methods"),
    };
    assert_eq!(methods.items.len(), 6);
    let parameter = |index: usize| match &methods.items[index] {
        syn::ImplItem::Fn(method) => match &method.sig.inputs[1] {
            syn::FnArg::Typed(typed) => typed.ty.to_token_stream().to_string(),
            _ => panic!("the setter's second parameter is the receiver"),
        },
        _ => panic!("the block holds something else than a method"),
    };
    assert_eq!(parameter(0), "& 'a str");
    assert_eq!(parameter(1), "std :: collections :: HashMap < String , Vec < u8 > >");
    assert_eq!(parameter(2), "[usize ; 3]");
    assert_eq!(parameter(3), "(u8 , u8)");
    assert_eq!(parameter(4), "std :: vec :: Vec < Option < String > >");
}

#[test]
fn other_definitions_are_told_apart() {
    assert!(read("struct Named { a: u8 }").data.has_named_fields());
    assert!(read("struct Empty {}").data.has_named_fields());
    assert!(!read("struct Tuple(u8, u8);").data.has_named_fields());
    assert!(!read("struct Unit;").data.has_named_fields());
    assert!(!read("enum Choice { A, B }").data.has_named_fields());
    assert!(!read("union Overlay { a: u8, b: u8 }").data.has_named_fields());
}
